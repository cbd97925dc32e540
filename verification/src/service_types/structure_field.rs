//! A field of a structured data type.

use vstd::prelude::*;
use crate::encoding::{
    BinaryEncoder, DecodingLimits, EncodingResult, ReadStream, add_part_len, array_decoding,
    array_encodable, array_encoding, array_view, array_within, byte_len_array,
    lemma_array_round_trip, lemma_concat_assoc, lemma_extends_refl, read_array, write_array_part,
    write_part,
};
use crate::localized_text::{LocalizedText, LocalizedTextView};
use crate::node_id::{NodeId, NodeIdView};
use crate::node_ids::ObjectId;
use crate::service_types::MessageInfo;
use crate::status_codes::StatusCode;
use crate::string::UAString;

verus! {

/// Describes one field of a structure.
#[derive(Clone, Debug, PartialEq, Eq)]
pub struct StructureField {
    /// Name of the field.
    pub name: UAString,
    /// What the field is for.
    pub description: LocalizedText,
    /// The data type of the field.
    pub data_type: NodeId,
    /// Whether the field is a scalar or an array, and of how many dimensions.
    pub value_rank: i32,
    /// The length of each dimension of an array.
    pub array_dimensions: Option<Vec<u32>>,
    /// The longest string that the field holds; 0 for no limit.
    pub max_string_length: u32,
    /// Whether a value may leave the field out.
    pub is_optional: bool,
}

/// The value of a `StructureField`.
pub struct StructureFieldView {
    pub name: Option<Seq<char>>,
    pub description: LocalizedTextView,
    pub data_type: NodeIdView,
    pub value_rank: i32,
    pub array_dimensions: Option<Seq<u32>>,
    pub max_string_length: u32,
    pub is_optional: bool,
}

impl View for StructureField {
    type V = StructureFieldView;

    open spec fn view(&self) -> StructureFieldView {
        StructureFieldView {
            name: self.name@,
            description: self.description@,
            data_type: self.data_type@,
            value_rank: self.value_rank,
            array_dimensions: array_view(self.array_dimensions),
            max_string_length: self.max_string_length,
            is_optional: self.is_optional,
        }
    }
}

impl MessageInfo for StructureField {
    open spec fn message_object_id(&self) -> ObjectId {
        ObjectId::StructureField_Encoding_DefaultBinary
    }

    fn object_id(&self) -> (r: ObjectId) {
        ObjectId::StructureField_Encoding_DefaultBinary
    }
}

/// Wire form of a `StructureField`: its fields in the order of their declaration.
pub open spec fn structure_field_encoding(v: StructureFieldView) -> Seq<u8> {
    UAString::encoding(v.name) + LocalizedText::encoding(v.description)
        + NodeId::encoding(v.data_type) + i32::encoding(v.value_rank)
        + array_encoding::<u32>(v.array_dimensions) + u32::encoding(v.max_string_length)
        + bool::encoding(v.is_optional)
}

/// A `StructureField` off the front of `s`: its fields, one behind the other.
#[verifier::opaque]
pub open spec fn structure_field_decoding(s: Seq<u8>, limits: DecodingLimits) -> Result<
    (StructureFieldView, Seq<u8>),
    StatusCode,
> {
    match UAString::decoding(s, limits) {
        Err(e) => Err(e),
        Ok((name, s)) =>
            match LocalizedText::decoding(s, limits) {
                Err(e) => Err(e),
                Ok((description, s)) =>
                    match NodeId::decoding(s, limits) {
                        Err(e) => Err(e),
                        Ok((data_type, s)) =>
                            match i32::decoding(s, limits) {
                                Err(e) => Err(e),
                                Ok((value_rank, s)) =>
                                    match array_decoding::<u32>(s, limits) {
                                        Err(e) => Err(e),
                                        Ok((array_dimensions, s)) =>
                                            match u32::decoding(s, limits) {
                                                Err(e) => Err(e),
                                                Ok((max_string_length, s)) =>
                                                    match bool::decoding(s, limits) {
                                                        Err(e) => Err(e),
                                                        Ok((is_optional, s)) =>
                                                            Ok((
                                                                StructureFieldView {
                                                                    name,
                                                                    description,
                                                                    data_type,
                                                                    value_rank,
                                                                    array_dimensions,
                                                                    max_string_length,
                                                                    is_optional,
                                                                },
                                                                s,
                                                            )),
                                                    },
                                            },
                                    },
                            },
                    },
            },
    }
}

impl BinaryEncoder for StructureField {
    open spec fn encoding(v: StructureFieldView) -> Seq<u8> {
        structure_field_encoding(v)
    }

    open spec fn encodable(v: StructureFieldView) -> bool {
        &&& UAString::encodable(v.name)
        &&& LocalizedText::encodable(v.description)
        &&& NodeId::encodable(v.data_type)
        &&& array_encodable::<u32>(v.array_dimensions)
    }

    open spec fn within(v: StructureFieldView, limits: DecodingLimits) -> bool {
        &&& UAString::within(v.name, limits)
        &&& LocalizedText::within(v.description, limits)
        &&& NodeId::within(v.data_type, limits)
        &&& array_within::<u32>(v.array_dimensions, limits)
    }

    open spec fn decoding(s: Seq<u8>, limits: DecodingLimits) -> Result<
        (StructureFieldView, Seq<u8>),
        StatusCode,
    > {
        structure_field_decoding(s, limits)
    }

    proof fn lemma_round_trip(v: StructureFieldView, rest: Seq<u8>, limits: DecodingLimits) {
        reveal(structure_field_decoding);
        let p0 = UAString::encoding(v.name);
        let p1 = LocalizedText::encoding(v.description);
        let p2 = NodeId::encoding(v.data_type);
        let p3 = i32::encoding(v.value_rank);
        let p4 = array_encoding::<u32>(v.array_dimensions);
        let p5 = u32::encoding(v.max_string_length);
        let p6 = bool::encoding(v.is_optional);
        let r6 = p6 + rest;
        let r5 = p5 + r6;
        let r4 = p4 + r5;
        let r3 = p3 + r4;
        let r2 = p2 + r3;
        let r1 = p1 + r2;
        lemma_concat_assoc(p0 + p1 + p2 + p3 + p4 + p5, p6, rest);
        lemma_concat_assoc(p0 + p1 + p2 + p3 + p4, p5, r6);
        lemma_concat_assoc(p0 + p1 + p2 + p3, p4, r5);
        lemma_concat_assoc(p0 + p1 + p2, p3, r4);
        lemma_concat_assoc(p0 + p1, p2, r3);
        lemma_concat_assoc(p0, p1, r2);
        UAString::lemma_round_trip(v.name, r1, limits);
        LocalizedText::lemma_round_trip(v.description, r2, limits);
        NodeId::lemma_round_trip(v.data_type, r3, limits);
        i32::lemma_round_trip(v.value_rank, r4, limits);
        lemma_array_round_trip::<u32>(v.array_dimensions, r5, limits);
        u32::lemma_round_trip(v.max_string_length, r6, limits);
        bool::lemma_round_trip(v.is_optional, rest, limits);
    }

    fn byte_len(&self) -> (r: usize) {
        let ghost v = self@;
        let ghost e0 = UAString::encoding(v.name);
        let ghost e1 = e0 + LocalizedText::encoding(v.description);
        let ghost e2 = e1 + NodeId::encoding(v.data_type);
        let ghost e3 = e2 + i32::encoding(v.value_rank);
        let ghost e4 = e3 + array_encoding::<u32>(v.array_dimensions);
        let ghost e5 = e4 + u32::encoding(v.max_string_length);
        let ghost e6 = e5 + bool::encoding(v.is_optional);
        let mut size: usize = self.name.byte_len();
        size = add_part_len(
            size,
            self.description.byte_len(),
            Ghost(e0),
            Ghost(LocalizedText::encoding(v.description)),
        );
        size = add_part_len(
            size,
            self.data_type.byte_len(),
            Ghost(e1),
            Ghost(NodeId::encoding(v.data_type)),
        );
        size = add_part_len(
            size,
            self.value_rank.byte_len(),
            Ghost(e2),
            Ghost(i32::encoding(v.value_rank)),
        );
        size = add_part_len(
            size,
            byte_len_array(&self.array_dimensions),
            Ghost(e3),
            Ghost(array_encoding::<u32>(v.array_dimensions)),
        );
        size = add_part_len(
            size,
            self.max_string_length.byte_len(),
            Ghost(e4),
            Ghost(u32::encoding(v.max_string_length)),
        );
        size = add_part_len(
            size,
            self.is_optional.byte_len(),
            Ghost(e5),
            Ghost(bool::encoding(v.is_optional)),
        );
        size
    }

    fn encode(&self, stream: &mut Vec<u8>) -> (r: EncodingResult<usize>) {
        let start = stream.len();
        let ghost o = stream@;
        let ghost v = self@;
        proof {
            lemma_extends_refl(o);
        }
        write_part(stream, &self.name, Ghost(o))?;
        write_part(stream, &self.description, Ghost(o))?;
        write_part(stream, &self.data_type, Ghost(o))?;
        write_part(stream, &self.value_rank, Ghost(o))?;
        write_array_part(stream, &self.array_dimensions, Ghost(o))?;
        write_part(stream, &self.max_string_length, Ghost(o))?;
        write_part(stream, &self.is_optional, Ghost(o))?;
        proof {
            let p0 = UAString::encoding(v.name);
            let p1 = LocalizedText::encoding(v.description);
            let p2 = NodeId::encoding(v.data_type);
            let p3 = i32::encoding(v.value_rank);
            let p4 = array_encoding::<u32>(v.array_dimensions);
            let p5 = u32::encoding(v.max_string_length);
            let p6 = bool::encoding(v.is_optional);
            lemma_concat_assoc(o, p0, p1);
            lemma_concat_assoc(o, p0 + p1, p2);
            lemma_concat_assoc(o, p0 + p1 + p2, p3);
            lemma_concat_assoc(o, p0 + p1 + p2 + p3, p4);
            lemma_concat_assoc(o, p0 + p1 + p2 + p3 + p4, p5);
            lemma_concat_assoc(o, p0 + p1 + p2 + p3 + p4 + p5, p6);
        }
        Ok(stream.len() - start)
    }

    fn decode(stream: &mut ReadStream, limits: &DecodingLimits) -> (r: EncodingResult<Self>) {
        proof {
            reveal(structure_field_decoding);
        }
        let name = UAString::decode(stream, limits)?;
        let description = LocalizedText::decode(stream, limits)?;
        let data_type = NodeId::decode(stream, limits)?;
        let value_rank = i32::decode(stream, limits)?;
        let array_dimensions: Option<Vec<u32>> = read_array(stream, limits)?;
        let max_string_length = u32::decode(stream, limits)?;
        let is_optional = bool::decode(stream, limits)?;
        Ok(
            StructureField {
                name,
                description,
                data_type,
                value_rank,
                array_dimensions,
                max_string_length,
                is_optional,
            },
        )
    }
}

} // verus!
