//! The description of a field of a data set.

use vstd::prelude::*;
use crate::encoding::{
    BinaryEncoder, DecodingLimits, EncodingResult, ReadStream, add_part_len, array_decoding,
    array_encodable, array_encoding, array_view, array_within, byte_len_array,
    lemma_array_round_trip, lemma_concat_assoc, lemma_extends_refl, read_array, write_array_part,
    write_part,
};
use crate::guid::Guid;
use crate::localized_text::{LocalizedText, LocalizedTextView};
use crate::node_id::{NodeId, NodeIdView};
use crate::service_types::key_value_pair::{KeyValuePair, KeyValuePairView};
use crate::status_codes::StatusCode;
use crate::string::UAString;

verus! {

/// Describes one field of a data set.
#[derive(Clone, Debug, PartialEq, Eq)]
pub struct FieldMetaData {
    /// The name of the field.
    pub name: UAString,
    /// What the field is for.
    pub description: LocalizedText,
    /// Flags of the field, one bit each.
    pub field_flags: u16,
    /// The built-in type that the values travel as.
    pub built_in_type: u8,
    /// The data type of the field.
    pub data_type: NodeId,
    /// Whether the field is a scalar or an array, and of how many dimensions.
    pub value_rank: i32,
    /// The length of each dimension of an array.
    pub array_dimensions: Option<Vec<u32>>,
    /// The longest string that the field holds; 0 for no limit.
    pub max_string_length: u32,
    /// Identifies the field within the data set.
    pub data_set_field_id: Guid,
    /// More properties of the field.
    pub properties: Option<Vec<KeyValuePair>>,
}

/// The value of a `FieldMetaData`.
pub struct FieldMetaDataView {
    pub name: Option<Seq<char>>,
    pub description: LocalizedTextView,
    pub field_flags: u16,
    pub built_in_type: u8,
    pub data_type: NodeIdView,
    pub value_rank: i32,
    pub array_dimensions: Option<Seq<u32>>,
    pub max_string_length: u32,
    pub data_set_field_id: Guid,
    pub properties: Option<Seq<KeyValuePairView>>,
}

impl View for FieldMetaData {
    type V = FieldMetaDataView;

    open spec fn view(&self) -> FieldMetaDataView {
        FieldMetaDataView {
            name: self.name@,
            description: self.description@,
            field_flags: self.field_flags,
            built_in_type: self.built_in_type,
            data_type: self.data_type@,
            value_rank: self.value_rank,
            array_dimensions: array_view(self.array_dimensions),
            max_string_length: self.max_string_length,
            data_set_field_id: self.data_set_field_id,
            properties: array_view(self.properties),
        }
    }
}

/// Wire form of a `FieldMetaData`: its fields in the order of their declaration.
pub open spec fn field_meta_data_encoding(v: FieldMetaDataView) -> Seq<u8> {
    UAString::encoding(v.name) + LocalizedText::encoding(v.description)
        + u16::encoding(v.field_flags) + u8::encoding(v.built_in_type)
        + NodeId::encoding(v.data_type) + i32::encoding(v.value_rank)
        + array_encoding::<u32>(v.array_dimensions) + u32::encoding(v.max_string_length)
        + Guid::encoding(v.data_set_field_id) + array_encoding::<KeyValuePair>(v.properties)
}

/// A `FieldMetaData` off the front of `s`: its fields, one behind the other.
#[verifier::opaque]
pub open spec fn field_meta_data_decoding(s: Seq<u8>, limits: DecodingLimits) -> Result<
    (FieldMetaDataView, Seq<u8>),
    StatusCode,
> {
    match UAString::decoding(s, limits) {
        Err(e) => Err(e),
        Ok((name, s)) =>
            match LocalizedText::decoding(s, limits) {
                Err(e) => Err(e),
                Ok((description, s)) =>
                    match u16::decoding(s, limits) {
                        Err(e) => Err(e),
                        Ok((field_flags, s)) =>
                            match u8::decoding(s, limits) {
                                Err(e) => Err(e),
                                Ok((built_in_type, s)) =>
                                    match NodeId::decoding(s, limits) {
                                        Err(e) => Err(e),
                                        Ok((data_type, s)) =>
                                            match i32::decoding(s, limits) {
                                                Err(e) => Err(e),
                                                Ok((value_rank, s)) =>
                                                    match array_decoding::<u32>(s, limits) {
                                                        Err(e) => Err(e),
                                                        Ok((array_dimensions, s)) =>
                                                            match u32::decoding(s, limits) {
                                                                Err(e) => Err(e),
                                                                Ok((max_string_length, s)) =>
                                                                    match Guid::decoding(s, limits) {
                                                                        Err(e) => Err(e),
                                                                        Ok((data_set_field_id, s)) =>
                                                                            match array_decoding::<KeyValuePair>(s, limits) {
                                                                                Err(e) => Err(e),
                                                                                Ok((properties, s)) =>
                                                                                    Ok((
                                                                                        FieldMetaDataView {
                                                                                            name,
                                                                                            description,
                                                                                            field_flags,
                                                                                            built_in_type,
                                                                                            data_type,
                                                                                            value_rank,
                                                                                            array_dimensions,
                                                                                            max_string_length,
                                                                                            data_set_field_id,
                                                                                            properties,
                                                                                        },
                                                                                        s,
                                                                                    )),
                                                                            },
                                                                    },
                                                            },
                                                    },
                                            },
                                    },
                            },
                    },
            },
    }
}

impl BinaryEncoder for FieldMetaData {
    open spec fn encoding(v: FieldMetaDataView) -> Seq<u8> {
        field_meta_data_encoding(v)
    }

    open spec fn encodable(v: FieldMetaDataView) -> bool {
        &&& UAString::encodable(v.name)
        &&& LocalizedText::encodable(v.description)
        &&& NodeId::encodable(v.data_type)
        &&& array_encodable::<u32>(v.array_dimensions)
        &&& Guid::encodable(v.data_set_field_id)
        &&& array_encodable::<KeyValuePair>(v.properties)
    }

    open spec fn within(v: FieldMetaDataView, limits: DecodingLimits) -> bool {
        &&& UAString::within(v.name, limits)
        &&& LocalizedText::within(v.description, limits)
        &&& NodeId::within(v.data_type, limits)
        &&& array_within::<u32>(v.array_dimensions, limits)
        &&& Guid::within(v.data_set_field_id, limits)
        &&& array_within::<KeyValuePair>(v.properties, limits)
    }

    open spec fn decoding(s: Seq<u8>, limits: DecodingLimits) -> Result<
        (FieldMetaDataView, Seq<u8>),
        StatusCode,
    > {
        field_meta_data_decoding(s, limits)
    }

    proof fn lemma_round_trip(v: FieldMetaDataView, rest: Seq<u8>, limits: DecodingLimits) {
        reveal(field_meta_data_decoding);
        let p0 = UAString::encoding(v.name);
        let p1 = LocalizedText::encoding(v.description);
        let p2 = u16::encoding(v.field_flags);
        let p3 = u8::encoding(v.built_in_type);
        let p4 = NodeId::encoding(v.data_type);
        let p5 = i32::encoding(v.value_rank);
        let p6 = array_encoding::<u32>(v.array_dimensions);
        let p7 = u32::encoding(v.max_string_length);
        let p8 = Guid::encoding(v.data_set_field_id);
        let p9 = array_encoding::<KeyValuePair>(v.properties);
        let r9 = p9 + rest;
        let r8 = p8 + r9;
        let r7 = p7 + r8;
        let r6 = p6 + r7;
        let r5 = p5 + r6;
        let r4 = p4 + r5;
        let r3 = p3 + r4;
        let r2 = p2 + r3;
        let r1 = p1 + r2;
        lemma_concat_assoc(p0 + p1 + p2 + p3 + p4 + p5 + p6 + p7 + p8, p9, rest);
        lemma_concat_assoc(p0 + p1 + p2 + p3 + p4 + p5 + p6 + p7, p8, r9);
        lemma_concat_assoc(p0 + p1 + p2 + p3 + p4 + p5 + p6, p7, r8);
        lemma_concat_assoc(p0 + p1 + p2 + p3 + p4 + p5, p6, r7);
        lemma_concat_assoc(p0 + p1 + p2 + p3 + p4, p5, r6);
        lemma_concat_assoc(p0 + p1 + p2 + p3, p4, r5);
        lemma_concat_assoc(p0 + p1 + p2, p3, r4);
        lemma_concat_assoc(p0 + p1, p2, r3);
        lemma_concat_assoc(p0, p1, r2);
        UAString::lemma_round_trip(v.name, r1, limits);
        LocalizedText::lemma_round_trip(v.description, r2, limits);
        u16::lemma_round_trip(v.field_flags, r3, limits);
        u8::lemma_round_trip(v.built_in_type, r4, limits);
        NodeId::lemma_round_trip(v.data_type, r5, limits);
        i32::lemma_round_trip(v.value_rank, r6, limits);
        lemma_array_round_trip::<u32>(v.array_dimensions, r7, limits);
        u32::lemma_round_trip(v.max_string_length, r8, limits);
        Guid::lemma_round_trip(v.data_set_field_id, r9, limits);
        lemma_array_round_trip::<KeyValuePair>(v.properties, rest, limits);
    }

    fn byte_len(&self) -> (r: usize) {
        let ghost v = self@;
        let ghost e0 = UAString::encoding(v.name);
        let ghost e1 = e0 + LocalizedText::encoding(v.description);
        let ghost e2 = e1 + u16::encoding(v.field_flags);
        let ghost e3 = e2 + u8::encoding(v.built_in_type);
        let ghost e4 = e3 + NodeId::encoding(v.data_type);
        let ghost e5 = e4 + i32::encoding(v.value_rank);
        let ghost e6 = e5 + array_encoding::<u32>(v.array_dimensions);
        let ghost e7 = e6 + u32::encoding(v.max_string_length);
        let ghost e8 = e7 + Guid::encoding(v.data_set_field_id);
        let ghost e9 = e8 + array_encoding::<KeyValuePair>(v.properties);
        let mut size: usize = self.name.byte_len();
        size = add_part_len(
            size,
            self.description.byte_len(),
            Ghost(e0),
            Ghost(LocalizedText::encoding(v.description)),
        );
        size = add_part_len(
            size,
            self.field_flags.byte_len(),
            Ghost(e1),
            Ghost(u16::encoding(v.field_flags)),
        );
        size = add_part_len(
            size,
            self.built_in_type.byte_len(),
            Ghost(e2),
            Ghost(u8::encoding(v.built_in_type)),
        );
        size = add_part_len(
            size,
            self.data_type.byte_len(),
            Ghost(e3),
            Ghost(NodeId::encoding(v.data_type)),
        );
        size = add_part_len(
            size,
            self.value_rank.byte_len(),
            Ghost(e4),
            Ghost(i32::encoding(v.value_rank)),
        );
        size = add_part_len(
            size,
            byte_len_array(&self.array_dimensions),
            Ghost(e5),
            Ghost(array_encoding::<u32>(v.array_dimensions)),
        );
        size = add_part_len(
            size,
            self.max_string_length.byte_len(),
            Ghost(e6),
            Ghost(u32::encoding(v.max_string_length)),
        );
        size = add_part_len(
            size,
            self.data_set_field_id.byte_len(),
            Ghost(e7),
            Ghost(Guid::encoding(v.data_set_field_id)),
        );
        size = add_part_len(
            size,
            byte_len_array(&self.properties),
            Ghost(e8),
            Ghost(array_encoding::<KeyValuePair>(v.properties)),
        );
        size
    }

    fn encode(&self, stream: &mut Vec<u8>) -> (r: EncodingResult<usize>) {
        let start = stream.len();
        let ghost o = stream@;
        let ghost v = self@;
        proof {
            lemma_extends_refl(o);
        }
        write_part(stream, &self.name, Ghost(o))?;
        write_part(stream, &self.description, Ghost(o))?;
        write_part(stream, &self.field_flags, Ghost(o))?;
        write_part(stream, &self.built_in_type, Ghost(o))?;
        write_part(stream, &self.data_type, Ghost(o))?;
        write_part(stream, &self.value_rank, Ghost(o))?;
        write_array_part(stream, &self.array_dimensions, Ghost(o))?;
        write_part(stream, &self.max_string_length, Ghost(o))?;
        write_part(stream, &self.data_set_field_id, Ghost(o))?;
        write_array_part(stream, &self.properties, Ghost(o))?;
        proof {
            let p0 = UAString::encoding(v.name);
            let p1 = LocalizedText::encoding(v.description);
            let p2 = u16::encoding(v.field_flags);
            let p3 = u8::encoding(v.built_in_type);
            let p4 = NodeId::encoding(v.data_type);
            let p5 = i32::encoding(v.value_rank);
            let p6 = array_encoding::<u32>(v.array_dimensions);
            let p7 = u32::encoding(v.max_string_length);
            let p8 = Guid::encoding(v.data_set_field_id);
            let p9 = array_encoding::<KeyValuePair>(v.properties);
            lemma_concat_assoc(o, p0, p1);
            lemma_concat_assoc(o, p0 + p1, p2);
            lemma_concat_assoc(o, p0 + p1 + p2, p3);
            lemma_concat_assoc(o, p0 + p1 + p2 + p3, p4);
            lemma_concat_assoc(o, p0 + p1 + p2 + p3 + p4, p5);
            lemma_concat_assoc(o, p0 + p1 + p2 + p3 + p4 + p5, p6);
            lemma_concat_assoc(o, p0 + p1 + p2 + p3 + p4 + p5 + p6, p7);
            lemma_concat_assoc(o, p0 + p1 + p2 + p3 + p4 + p5 + p6 + p7, p8);
            lemma_concat_assoc(o, p0 + p1 + p2 + p3 + p4 + p5 + p6 + p7 + p8, p9);
        }
        Ok(stream.len() - start)
    }

    fn decode(stream: &mut ReadStream, limits: &DecodingLimits) -> (r: EncodingResult<Self>) {
        proof {
            reveal(field_meta_data_decoding);
        }
        let name = UAString::decode(stream, limits)?;
        let description = LocalizedText::decode(stream, limits)?;
        let field_flags = u16::decode(stream, limits)?;
        let built_in_type = u8::decode(stream, limits)?;
        let data_type = NodeId::decode(stream, limits)?;
        let value_rank = i32::decode(stream, limits)?;
        let array_dimensions: Option<Vec<u32>> = read_array(stream, limits)?;
        let max_string_length = u32::decode(stream, limits)?;
        let data_set_field_id = Guid::decode(stream, limits)?;
        let properties: Option<Vec<KeyValuePair>> = read_array(stream, limits)?;
        Ok(
            FieldMetaData {
                name,
                description,
                field_flags,
                built_in_type,
                data_type,
                value_rank,
                array_dimensions,
                max_string_length,
                data_set_field_id,
                properties,
            },
        )
    }
}

} // verus!
