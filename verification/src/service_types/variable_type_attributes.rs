//! The attributes of a variable type node.

use vstd::prelude::*;
use crate::encoding::{
    BinaryEncoder, DecodingLimits, EncodingResult, ReadStream, add_part_len, array_decoding,
    array_encodable, array_encoding, array_view, array_within, byte_len_array,
    lemma_array_round_trip, lemma_concat_assoc, lemma_extends_refl, read_array, write_array_part,
    write_part,
};
use crate::localized_text::{LocalizedText, LocalizedTextView};
use crate::node_id::{NodeId, NodeIdView};
use crate::status_codes::StatusCode;
use crate::variant::{Variant, VariantView};

verus! {

/// The attributes from which a variable type node is made.
#[derive(Clone, Debug, PartialEq, Eq)]
pub struct VariableTypeAttributes {
    /// The attributes that are given, one bit each.
    pub specified_attributes: u32,
    /// The display name of the node.
    pub display_name: LocalizedText,
    /// The description of the node.
    pub description: LocalizedText,
    /// The attributes that may be written.
    pub write_mask: u32,
    /// The attributes that the user may write.
    pub user_write_mask: u32,
    /// The default value of variables of the type.
    pub value: Variant,
    /// The data type of the value.
    pub data_type: NodeId,
    /// Whether the value is a scalar or an array, and of how many dimensions.
    pub value_rank: i32,
    /// The length of each dimension of an array value.
    pub array_dimensions: Option<Vec<u32>>,
    /// Whether the variable type is abstract.
    pub is_abstract: bool,
}

/// The value of a `VariableTypeAttributes`.
pub struct VariableTypeAttributesView {
    pub specified_attributes: u32,
    pub display_name: LocalizedTextView,
    pub description: LocalizedTextView,
    pub write_mask: u32,
    pub user_write_mask: u32,
    pub value: VariantView,
    pub data_type: NodeIdView,
    pub value_rank: i32,
    pub array_dimensions: Option<Seq<u32>>,
    pub is_abstract: bool,
}

impl View for VariableTypeAttributes {
    type V = VariableTypeAttributesView;

    open spec fn view(&self) -> VariableTypeAttributesView {
        VariableTypeAttributesView {
            specified_attributes: self.specified_attributes,
            display_name: self.display_name@,
            description: self.description@,
            write_mask: self.write_mask,
            user_write_mask: self.user_write_mask,
            value: self.value@,
            data_type: self.data_type@,
            value_rank: self.value_rank,
            array_dimensions: array_view(self.array_dimensions),
            is_abstract: self.is_abstract,
        }
    }
}

/// Wire form of a `VariableTypeAttributes`: its fields in the order of their declaration.
pub open spec fn variable_type_attributes_encoding(v: VariableTypeAttributesView) -> Seq<u8> {
    u32::encoding(v.specified_attributes) + LocalizedText::encoding(v.display_name)
        + LocalizedText::encoding(v.description) + u32::encoding(v.write_mask)
        + u32::encoding(v.user_write_mask) + Variant::encoding(v.value)
        + NodeId::encoding(v.data_type) + i32::encoding(v.value_rank)
        + array_encoding::<u32>(v.array_dimensions) + bool::encoding(v.is_abstract)
}

/// A `VariableTypeAttributes` off the front of `s`: its fields, one behind the other.
#[verifier::opaque]
pub open spec fn variable_type_attributes_decoding(s: Seq<u8>, limits: DecodingLimits) -> Result<
    (VariableTypeAttributesView, Seq<u8>),
    StatusCode,
> {
    match u32::decoding(s, limits) {
        Err(e) => Err(e),
        Ok((specified_attributes, s)) =>
            match LocalizedText::decoding(s, limits) {
                Err(e) => Err(e),
                Ok((display_name, s)) =>
                    match LocalizedText::decoding(s, limits) {
                        Err(e) => Err(e),
                        Ok((description, s)) =>
                            match u32::decoding(s, limits) {
                                Err(e) => Err(e),
                                Ok((write_mask, s)) =>
                                    match u32::decoding(s, limits) {
                                        Err(e) => Err(e),
                                        Ok((user_write_mask, s)) =>
                                            match Variant::decoding(s, limits) {
                                                Err(e) => Err(e),
                                                Ok((value, s)) =>
                                                    match NodeId::decoding(s, limits) {
                                                        Err(e) => Err(e),
                                                        Ok((data_type, s)) =>
                                                            match i32::decoding(s, limits) {
                                                                Err(e) => Err(e),
                                                                Ok((value_rank, s)) =>
                                                                    match array_decoding::<u32>(s, limits) {
                                                                        Err(e) => Err(e),
                                                                        Ok((array_dimensions, s)) =>
                                                                            match bool::decoding(s, limits) {
                                                                                Err(e) => Err(e),
                                                                                Ok((is_abstract, s)) =>
                                                                                    Ok((
                                                                                        VariableTypeAttributesView {
                                                                                            specified_attributes,
                                                                                            display_name,
                                                                                            description,
                                                                                            write_mask,
                                                                                            user_write_mask,
                                                                                            value,
                                                                                            data_type,
                                                                                            value_rank,
                                                                                            array_dimensions,
                                                                                            is_abstract,
                                                                                        },
                                                                                        s,
                                                                                    )),
                                                                            },
                                                                    },
                                                            },
                                                    },
                                            },
                                    },
                            },
                    },
            },
    }
}

impl BinaryEncoder for VariableTypeAttributes {
    open spec fn encoding(v: VariableTypeAttributesView) -> Seq<u8> {
        variable_type_attributes_encoding(v)
    }

    open spec fn encodable(v: VariableTypeAttributesView) -> bool {
        &&& LocalizedText::encodable(v.display_name)
        &&& LocalizedText::encodable(v.description)
        &&& Variant::encodable(v.value)
        &&& NodeId::encodable(v.data_type)
        &&& array_encodable::<u32>(v.array_dimensions)
    }

    open spec fn within(v: VariableTypeAttributesView, limits: DecodingLimits) -> bool {
        &&& LocalizedText::within(v.display_name, limits)
        &&& LocalizedText::within(v.description, limits)
        &&& Variant::within(v.value, limits)
        &&& NodeId::within(v.data_type, limits)
        &&& array_within::<u32>(v.array_dimensions, limits)
    }

    open spec fn decoding(s: Seq<u8>, limits: DecodingLimits) -> Result<
        (VariableTypeAttributesView, Seq<u8>),
        StatusCode,
    > {
        variable_type_attributes_decoding(s, limits)
    }

    proof fn lemma_round_trip(v: VariableTypeAttributesView, rest: Seq<u8>, limits: DecodingLimits) {
        reveal(variable_type_attributes_decoding);
        let p0 = u32::encoding(v.specified_attributes);
        let p1 = LocalizedText::encoding(v.display_name);
        let p2 = LocalizedText::encoding(v.description);
        let p3 = u32::encoding(v.write_mask);
        let p4 = u32::encoding(v.user_write_mask);
        let p5 = Variant::encoding(v.value);
        let p6 = NodeId::encoding(v.data_type);
        let p7 = i32::encoding(v.value_rank);
        let p8 = array_encoding::<u32>(v.array_dimensions);
        let p9 = bool::encoding(v.is_abstract);
        let r9 = p9 + rest;
        let r8 = p8 + r9;
        let r7 = p7 + r8;
        let r6 = p6 + r7;
        let r5 = p5 + r6;
        let r4 = p4 + r5;
        let r3 = p3 + r4;
        let r2 = p2 + r3;
        let r1 = p1 + r2;
        lemma_concat_assoc(p0 + p1 + p2 + p3 + p4 + p5 + p6 + p7 + p8, p9, rest);
        lemma_concat_assoc(p0 + p1 + p2 + p3 + p4 + p5 + p6 + p7, p8, r9);
        lemma_concat_assoc(p0 + p1 + p2 + p3 + p4 + p5 + p6, p7, r8);
        lemma_concat_assoc(p0 + p1 + p2 + p3 + p4 + p5, p6, r7);
        lemma_concat_assoc(p0 + p1 + p2 + p3 + p4, p5, r6);
        lemma_concat_assoc(p0 + p1 + p2 + p3, p4, r5);
        lemma_concat_assoc(p0 + p1 + p2, p3, r4);
        lemma_concat_assoc(p0 + p1, p2, r3);
        lemma_concat_assoc(p0, p1, r2);
        u32::lemma_round_trip(v.specified_attributes, r1, limits);
        LocalizedText::lemma_round_trip(v.display_name, r2, limits);
        LocalizedText::lemma_round_trip(v.description, r3, limits);
        u32::lemma_round_trip(v.write_mask, r4, limits);
        u32::lemma_round_trip(v.user_write_mask, r5, limits);
        Variant::lemma_round_trip(v.value, r6, limits);
        NodeId::lemma_round_trip(v.data_type, r7, limits);
        i32::lemma_round_trip(v.value_rank, r8, limits);
        lemma_array_round_trip::<u32>(v.array_dimensions, r9, limits);
        bool::lemma_round_trip(v.is_abstract, rest, limits);
    }

    fn byte_len(&self) -> (r: usize) {
        let ghost v = self@;
        let ghost e0 = u32::encoding(v.specified_attributes);
        let ghost e1 = e0 + LocalizedText::encoding(v.display_name);
        let ghost e2 = e1 + LocalizedText::encoding(v.description);
        let ghost e3 = e2 + u32::encoding(v.write_mask);
        let ghost e4 = e3 + u32::encoding(v.user_write_mask);
        let ghost e5 = e4 + Variant::encoding(v.value);
        let ghost e6 = e5 + NodeId::encoding(v.data_type);
        let ghost e7 = e6 + i32::encoding(v.value_rank);
        let ghost e8 = e7 + array_encoding::<u32>(v.array_dimensions);
        let ghost e9 = e8 + bool::encoding(v.is_abstract);
        let mut size: usize = self.specified_attributes.byte_len();
        size = add_part_len(
            size,
            self.display_name.byte_len(),
            Ghost(e0),
            Ghost(LocalizedText::encoding(v.display_name)),
        );
        size = add_part_len(
            size,
            self.description.byte_len(),
            Ghost(e1),
            Ghost(LocalizedText::encoding(v.description)),
        );
        size = add_part_len(
            size,
            self.write_mask.byte_len(),
            Ghost(e2),
            Ghost(u32::encoding(v.write_mask)),
        );
        size = add_part_len(
            size,
            self.user_write_mask.byte_len(),
            Ghost(e3),
            Ghost(u32::encoding(v.user_write_mask)),
        );
        size = add_part_len(
            size,
            self.value.byte_len(),
            Ghost(e4),
            Ghost(Variant::encoding(v.value)),
        );
        size = add_part_len(
            size,
            self.data_type.byte_len(),
            Ghost(e5),
            Ghost(NodeId::encoding(v.data_type)),
        );
        size = add_part_len(
            size,
            self.value_rank.byte_len(),
            Ghost(e6),
            Ghost(i32::encoding(v.value_rank)),
        );
        size = add_part_len(
            size,
            byte_len_array(&self.array_dimensions),
            Ghost(e7),
            Ghost(array_encoding::<u32>(v.array_dimensions)),
        );
        size = add_part_len(
            size,
            self.is_abstract.byte_len(),
            Ghost(e8),
            Ghost(bool::encoding(v.is_abstract)),
        );
        size
    }

    fn encode(&self, stream: &mut Vec<u8>) -> (r: EncodingResult<usize>) {
        let start = stream.len();
        let ghost o = stream@;
        let ghost v = self@;
        proof {
            lemma_extends_refl(o);
        }
        write_part(stream, &self.specified_attributes, Ghost(o))?;
        write_part(stream, &self.display_name, Ghost(o))?;
        write_part(stream, &self.description, Ghost(o))?;
        write_part(stream, &self.write_mask, Ghost(o))?;
        write_part(stream, &self.user_write_mask, Ghost(o))?;
        write_part(stream, &self.value, Ghost(o))?;
        write_part(stream, &self.data_type, Ghost(o))?;
        write_part(stream, &self.value_rank, Ghost(o))?;
        write_array_part(stream, &self.array_dimensions, Ghost(o))?;
        write_part(stream, &self.is_abstract, Ghost(o))?;
        proof {
            let p0 = u32::encoding(v.specified_attributes);
            let p1 = LocalizedText::encoding(v.display_name);
            let p2 = LocalizedText::encoding(v.description);
            let p3 = u32::encoding(v.write_mask);
            let p4 = u32::encoding(v.user_write_mask);
            let p5 = Variant::encoding(v.value);
            let p6 = NodeId::encoding(v.data_type);
            let p7 = i32::encoding(v.value_rank);
            let p8 = array_encoding::<u32>(v.array_dimensions);
            let p9 = bool::encoding(v.is_abstract);
            lemma_concat_assoc(o, p0, p1);
            lemma_concat_assoc(o, p0 + p1, p2);
            lemma_concat_assoc(o, p0 + p1 + p2, p3);
            lemma_concat_assoc(o, p0 + p1 + p2 + p3, p4);
            lemma_concat_assoc(o, p0 + p1 + p2 + p3 + p4, p5);
            lemma_concat_assoc(o, p0 + p1 + p2 + p3 + p4 + p5, p6);
            lemma_concat_assoc(o, p0 + p1 + p2 + p3 + p4 + p5 + p6, p7);
            lemma_concat_assoc(o, p0 + p1 + p2 + p3 + p4 + p5 + p6 + p7, p8);
            lemma_concat_assoc(o, p0 + p1 + p2 + p3 + p4 + p5 + p6 + p7 + p8, p9);
        }
        Ok(stream.len() - start)
    }

    fn decode(stream: &mut ReadStream, limits: &DecodingLimits) -> (r: EncodingResult<Self>) {
        proof {
            reveal(variable_type_attributes_decoding);
        }
        let specified_attributes = u32::decode(stream, limits)?;
        let display_name = LocalizedText::decode(stream, limits)?;
        let description = LocalizedText::decode(stream, limits)?;
        let write_mask = u32::decode(stream, limits)?;
        let user_write_mask = u32::decode(stream, limits)?;
        let value = Variant::decode(stream, limits)?;
        let data_type = NodeId::decode(stream, limits)?;
        let value_rank = i32::decode(stream, limits)?;
        let array_dimensions: Option<Vec<u32>> = read_array(stream, limits)?;
        let is_abstract = bool::decode(stream, limits)?;
        Ok(
            VariableTypeAttributes {
                specified_attributes,
                display_name,
                description,
                write_mask,
                user_write_mask,
                value,
                data_type,
                value_rank,
                array_dimensions,
                is_abstract,
            },
        )
    }
}

} // verus!
