//! The attributes of a variable node.

use vstd::prelude::*;
use crate::encoding::{
    BinaryEncoder, DecodingLimits, EncodingResult, ReadStream, add_part_len, array_decoding,
    array_encodable, array_encoding, array_view, array_within, byte_len_array,
    lemma_array_round_trip, lemma_concat_assoc, lemma_extends_refl, read_array, write_array_part,
    write_part,
};
use crate::localized_text::{LocalizedText, LocalizedTextView};
use crate::node_id::{NodeId, NodeIdView};
use crate::status_codes::StatusCode;
use crate::variant::{Variant, VariantView};

verus! {

/// The attributes from which a variable node is made.
#[derive(Clone, Debug, PartialEq, Eq)]
pub struct VariableAttributes {
    /// The attributes that are given, one bit each.
    pub specified_attributes: u32,
    /// The display name of the node.
    pub display_name: LocalizedText,
    /// The description of the node.
    pub description: LocalizedText,
    /// The attributes that may be written.
    pub write_mask: u32,
    /// The attributes that the user may write.
    pub user_write_mask: u32,
    /// The value of the variable.
    pub value: Variant,
    /// The data type of the value.
    pub data_type: NodeId,
    /// Whether the value is a scalar or an array, and of how many dimensions.
    pub value_rank: i32,
    /// The length of each dimension of an array value.
    pub array_dimensions: Option<Vec<u32>>,
    /// How the value may be accessed.
    pub access_level: u8,
    /// How the user may access the value.
    pub user_access_level: u8,
    /// How fast the server can sample the value, in milliseconds, as the bits of a double.
    pub minimum_sampling_interval: u64,
    /// Whether the server keeps the history of the value.
    pub historizing: bool,
}

/// The value of a `VariableAttributes`.
pub struct VariableAttributesView {
    pub specified_attributes: u32,
    pub display_name: LocalizedTextView,
    pub description: LocalizedTextView,
    pub write_mask: u32,
    pub user_write_mask: u32,
    pub value: VariantView,
    pub data_type: NodeIdView,
    pub value_rank: i32,
    pub array_dimensions: Option<Seq<u32>>,
    pub access_level: u8,
    pub user_access_level: u8,
    pub minimum_sampling_interval: u64,
    pub historizing: bool,
}

impl View for VariableAttributes {
    type V = VariableAttributesView;

    open spec fn view(&self) -> VariableAttributesView {
        VariableAttributesView {
            specified_attributes: self.specified_attributes,
            display_name: self.display_name@,
            description: self.description@,
            write_mask: self.write_mask,
            user_write_mask: self.user_write_mask,
            value: self.value@,
            data_type: self.data_type@,
            value_rank: self.value_rank,
            array_dimensions: array_view(self.array_dimensions),
            access_level: self.access_level,
            user_access_level: self.user_access_level,
            minimum_sampling_interval: self.minimum_sampling_interval,
            historizing: self.historizing,
        }
    }
}

/// Wire form of a `VariableAttributes`: its fields in the order of their declaration.
pub open spec fn variable_attributes_encoding(v: VariableAttributesView) -> Seq<u8> {
    u32::encoding(v.specified_attributes) + LocalizedText::encoding(v.display_name)
        + LocalizedText::encoding(v.description) + u32::encoding(v.write_mask)
        + u32::encoding(v.user_write_mask) + Variant::encoding(v.value)
        + NodeId::encoding(v.data_type) + i32::encoding(v.value_rank)
        + array_encoding::<u32>(v.array_dimensions) + u8::encoding(v.access_level)
        + u8::encoding(v.user_access_level) + u64::encoding(v.minimum_sampling_interval)
        + bool::encoding(v.historizing)
}

/// A `VariableAttributes` off the front of `s`: its fields, one behind the other.
#[verifier::opaque]
pub open spec fn variable_attributes_decoding(s: Seq<u8>, limits: DecodingLimits) -> Result<
    (VariableAttributesView, Seq<u8>),
    StatusCode,
> {
    match u32::decoding(s, limits) {
        Err(e) => Err(e),
        Ok((specified_attributes, s)) =>
            match LocalizedText::decoding(s, limits) {
                Err(e) => Err(e),
                Ok((display_name, s)) =>
                    match LocalizedText::decoding(s, limits) {
                        Err(e) => Err(e),
                        Ok((description, s)) =>
                            match u32::decoding(s, limits) {
                                Err(e) => Err(e),
                                Ok((write_mask, s)) =>
                                    match u32::decoding(s, limits) {
                                        Err(e) => Err(e),
                                        Ok((user_write_mask, s)) =>
                                            match Variant::decoding(s, limits) {
                                                Err(e) => Err(e),
                                                Ok((value, s)) =>
                                                    match NodeId::decoding(s, limits) {
                                                        Err(e) => Err(e),
                                                        Ok((data_type, s)) =>
                                                            match i32::decoding(s, limits) {
                                                                Err(e) => Err(e),
                                                                Ok((value_rank, s)) =>
                                                                    match array_decoding::<u32>(s, limits) {
                                                                        Err(e) => Err(e),
                                                                        Ok((array_dimensions, s)) =>
                                                                            match u8::decoding(s, limits) {
                                                                                Err(e) => Err(e),
                                                                                Ok((access_level, s)) =>
                                                                                    match u8::decoding(s, limits) {
                                                                                        Err(e) => Err(e),
                                                                                        Ok((user_access_level, s)) =>
                                                                                            match u64::decoding(s, limits) {
                                                                                                Err(e) => Err(e),
                                                                                                Ok((minimum_sampling_interval, s)) =>
                                                                                                    match bool::decoding(s, limits) {
                                                                                                        Err(e) => Err(e),
                                                                                                        Ok((historizing, s)) =>
                                                                                                            Ok((
                                                                                                                VariableAttributesView {
                                                                                                                    specified_attributes,
                                                                                                                    display_name,
                                                                                                                    description,
                                                                                                                    write_mask,
                                                                                                                    user_write_mask,
                                                                                                                    value,
                                                                                                                    data_type,
                                                                                                                    value_rank,
                                                                                                                    array_dimensions,
                                                                                                                    access_level,
                                                                                                                    user_access_level,
                                                                                                                    minimum_sampling_interval,
                                                                                                                    historizing,
                                                                                                                },
                                                                                                                s,
                                                                                                            )),
                                                                                                    },
                                                                                            },
                                                                                    },
                                                                            },
                                                                    },
                                                            },
                                                    },
                                            },
                                    },
                            },
                    },
            },
    }
}

impl BinaryEncoder for VariableAttributes {
    open spec fn encoding(v: VariableAttributesView) -> Seq<u8> {
        variable_attributes_encoding(v)
    }

    open spec fn encodable(v: VariableAttributesView) -> bool {
        &&& LocalizedText::encodable(v.display_name)
        &&& LocalizedText::encodable(v.description)
        &&& Variant::encodable(v.value)
        &&& NodeId::encodable(v.data_type)
        &&& array_encodable::<u32>(v.array_dimensions)
    }

    open spec fn within(v: VariableAttributesView, limits: DecodingLimits) -> bool {
        &&& LocalizedText::within(v.display_name, limits)
        &&& LocalizedText::within(v.description, limits)
        &&& Variant::within(v.value, limits)
        &&& NodeId::within(v.data_type, limits)
        &&& array_within::<u32>(v.array_dimensions, limits)
    }

    open spec fn decoding(s: Seq<u8>, limits: DecodingLimits) -> Result<
        (VariableAttributesView, Seq<u8>),
        StatusCode,
    > {
        variable_attributes_decoding(s, limits)
    }

    proof fn lemma_round_trip(v: VariableAttributesView, rest: Seq<u8>, limits: DecodingLimits) {
        reveal(variable_attributes_decoding);
        let p0 = u32::encoding(v.specified_attributes);
        let p1 = LocalizedText::encoding(v.display_name);
        let p2 = LocalizedText::encoding(v.description);
        let p3 = u32::encoding(v.write_mask);
        let p4 = u32::encoding(v.user_write_mask);
        let p5 = Variant::encoding(v.value);
        let p6 = NodeId::encoding(v.data_type);
        let p7 = i32::encoding(v.value_rank);
        let p8 = array_encoding::<u32>(v.array_dimensions);
        let p9 = u8::encoding(v.access_level);
        let p10 = u8::encoding(v.user_access_level);
        let p11 = u64::encoding(v.minimum_sampling_interval);
        let p12 = bool::encoding(v.historizing);
        let r12 = p12 + rest;
        let r11 = p11 + r12;
        let r10 = p10 + r11;
        let r9 = p9 + r10;
        let r8 = p8 + r9;
        let r7 = p7 + r8;
        let r6 = p6 + r7;
        let r5 = p5 + r6;
        let r4 = p4 + r5;
        let r3 = p3 + r4;
        let r2 = p2 + r3;
        let r1 = p1 + r2;
        lemma_concat_assoc(p0 + p1 + p2 + p3 + p4 + p5 + p6 + p7 + p8 + p9 + p10 + p11, p12, rest);
        lemma_concat_assoc(p0 + p1 + p2 + p3 + p4 + p5 + p6 + p7 + p8 + p9 + p10, p11, r12);
        lemma_concat_assoc(p0 + p1 + p2 + p3 + p4 + p5 + p6 + p7 + p8 + p9, p10, r11);
        lemma_concat_assoc(p0 + p1 + p2 + p3 + p4 + p5 + p6 + p7 + p8, p9, r10);
        lemma_concat_assoc(p0 + p1 + p2 + p3 + p4 + p5 + p6 + p7, p8, r9);
        lemma_concat_assoc(p0 + p1 + p2 + p3 + p4 + p5 + p6, p7, r8);
        lemma_concat_assoc(p0 + p1 + p2 + p3 + p4 + p5, p6, r7);
        lemma_concat_assoc(p0 + p1 + p2 + p3 + p4, p5, r6);
        lemma_concat_assoc(p0 + p1 + p2 + p3, p4, r5);
        lemma_concat_assoc(p0 + p1 + p2, p3, r4);
        lemma_concat_assoc(p0 + p1, p2, r3);
        lemma_concat_assoc(p0, p1, r2);
        u32::lemma_round_trip(v.specified_attributes, r1, limits);
        LocalizedText::lemma_round_trip(v.display_name, r2, limits);
        LocalizedText::lemma_round_trip(v.description, r3, limits);
        u32::lemma_round_trip(v.write_mask, r4, limits);
        u32::lemma_round_trip(v.user_write_mask, r5, limits);
        Variant::lemma_round_trip(v.value, r6, limits);
        NodeId::lemma_round_trip(v.data_type, r7, limits);
        i32::lemma_round_trip(v.value_rank, r8, limits);
        lemma_array_round_trip::<u32>(v.array_dimensions, r9, limits);
        u8::lemma_round_trip(v.access_level, r10, limits);
        u8::lemma_round_trip(v.user_access_level, r11, limits);
        u64::lemma_round_trip(v.minimum_sampling_interval, r12, limits);
        bool::lemma_round_trip(v.historizing, rest, limits);
    }

    fn byte_len(&self) -> (r: usize) {
        let ghost v = self@;
        let ghost e0 = u32::encoding(v.specified_attributes);
        let ghost e1 = e0 + LocalizedText::encoding(v.display_name);
        let ghost e2 = e1 + LocalizedText::encoding(v.description);
        let ghost e3 = e2 + u32::encoding(v.write_mask);
        let ghost e4 = e3 + u32::encoding(v.user_write_mask);
        let ghost e5 = e4 + Variant::encoding(v.value);
        let ghost e6 = e5 + NodeId::encoding(v.data_type);
        let ghost e7 = e6 + i32::encoding(v.value_rank);
        let ghost e8 = e7 + array_encoding::<u32>(v.array_dimensions);
        let ghost e9 = e8 + u8::encoding(v.access_level);
        let ghost e10 = e9 + u8::encoding(v.user_access_level);
        let ghost e11 = e10 + u64::encoding(v.minimum_sampling_interval);
        let ghost e12 = e11 + bool::encoding(v.historizing);
        let mut size: usize = self.specified_attributes.byte_len();
        size = add_part_len(
            size,
            self.display_name.byte_len(),
            Ghost(e0),
            Ghost(LocalizedText::encoding(v.display_name)),
        );
        size = add_part_len(
            size,
            self.description.byte_len(),
            Ghost(e1),
            Ghost(LocalizedText::encoding(v.description)),
        );
        size = add_part_len(
            size,
            self.write_mask.byte_len(),
            Ghost(e2),
            Ghost(u32::encoding(v.write_mask)),
        );
        size = add_part_len(
            size,
            self.user_write_mask.byte_len(),
            Ghost(e3),
            Ghost(u32::encoding(v.user_write_mask)),
        );
        size = add_part_len(
            size,
            self.value.byte_len(),
            Ghost(e4),
            Ghost(Variant::encoding(v.value)),
        );
        size = add_part_len(
            size,
            self.data_type.byte_len(),
            Ghost(e5),
            Ghost(NodeId::encoding(v.data_type)),
        );
        size = add_part_len(
            size,
            self.value_rank.byte_len(),
            Ghost(e6),
            Ghost(i32::encoding(v.value_rank)),
        );
        size = add_part_len(
            size,
            byte_len_array(&self.array_dimensions),
            Ghost(e7),
            Ghost(array_encoding::<u32>(v.array_dimensions)),
        );
        size = add_part_len(
            size,
            self.access_level.byte_len(),
            Ghost(e8),
            Ghost(u8::encoding(v.access_level)),
        );
        size = add_part_len(
            size,
            self.user_access_level.byte_len(),
            Ghost(e9),
            Ghost(u8::encoding(v.user_access_level)),
        );
        size = add_part_len(
            size,
            self.minimum_sampling_interval.byte_len(),
            Ghost(e10),
            Ghost(u64::encoding(v.minimum_sampling_interval)),
        );
        size = add_part_len(
            size,
            self.historizing.byte_len(),
            Ghost(e11),
            Ghost(bool::encoding(v.historizing)),
        );
        size
    }

    fn encode(&self, stream: &mut Vec<u8>) -> (r: EncodingResult<usize>) {
        let start = stream.len();
        let ghost o = stream@;
        let ghost v = self@;
        proof {
            lemma_extends_refl(o);
        }
        write_part(stream, &self.specified_attributes, Ghost(o))?;
        write_part(stream, &self.display_name, Ghost(o))?;
        write_part(stream, &self.description, Ghost(o))?;
        write_part(stream, &self.write_mask, Ghost(o))?;
        write_part(stream, &self.user_write_mask, Ghost(o))?;
        write_part(stream, &self.value, Ghost(o))?;
        write_part(stream, &self.data_type, Ghost(o))?;
        write_part(stream, &self.value_rank, Ghost(o))?;
        write_array_part(stream, &self.array_dimensions, Ghost(o))?;
        write_part(stream, &self.access_level, Ghost(o))?;
        write_part(stream, &self.user_access_level, Ghost(o))?;
        write_part(stream, &self.minimum_sampling_interval, Ghost(o))?;
        write_part(stream, &self.historizing, Ghost(o))?;
        proof {
            let p0 = u32::encoding(v.specified_attributes);
            let p1 = LocalizedText::encoding(v.display_name);
            let p2 = LocalizedText::encoding(v.description);
            let p3 = u32::encoding(v.write_mask);
            let p4 = u32::encoding(v.user_write_mask);
            let p5 = Variant::encoding(v.value);
            let p6 = NodeId::encoding(v.data_type);
            let p7 = i32::encoding(v.value_rank);
            let p8 = array_encoding::<u32>(v.array_dimensions);
            let p9 = u8::encoding(v.access_level);
            let p10 = u8::encoding(v.user_access_level);
            let p11 = u64::encoding(v.minimum_sampling_interval);
            let p12 = bool::encoding(v.historizing);
            lemma_concat_assoc(o, p0, p1);
            lemma_concat_assoc(o, p0 + p1, p2);
            lemma_concat_assoc(o, p0 + p1 + p2, p3);
            lemma_concat_assoc(o, p0 + p1 + p2 + p3, p4);
            lemma_concat_assoc(o, p0 + p1 + p2 + p3 + p4, p5);
            lemma_concat_assoc(o, p0 + p1 + p2 + p3 + p4 + p5, p6);
            lemma_concat_assoc(o, p0 + p1 + p2 + p3 + p4 + p5 + p6, p7);
            lemma_concat_assoc(o, p0 + p1 + p2 + p3 + p4 + p5 + p6 + p7, p8);
            lemma_concat_assoc(o, p0 + p1 + p2 + p3 + p4 + p5 + p6 + p7 + p8, p9);
            lemma_concat_assoc(o, p0 + p1 + p2 + p3 + p4 + p5 + p6 + p7 + p8 + p9, p10);
            lemma_concat_assoc(o, p0 + p1 + p2 + p3 + p4 + p5 + p6 + p7 + p8 + p9 + p10, p11);
            lemma_concat_assoc(o, p0 + p1 + p2 + p3 + p4 + p5 + p6 + p7 + p8 + p9 + p10 + p11, p12);
        }
        Ok(stream.len() - start)
    }

    fn decode(stream: &mut ReadStream, limits: &DecodingLimits) -> (r: EncodingResult<Self>) {
        proof {
            reveal(variable_attributes_decoding);
        }
        let specified_attributes = u32::decode(stream, limits)?;
        let display_name = LocalizedText::decode(stream, limits)?;
        let description = LocalizedText::decode(stream, limits)?;
        let write_mask = u32::decode(stream, limits)?;
        let user_write_mask = u32::decode(stream, limits)?;
        let value = Variant::decode(stream, limits)?;
        let data_type = NodeId::decode(stream, limits)?;
        let value_rank = i32::decode(stream, limits)?;
        let array_dimensions: Option<Vec<u32>> = read_array(stream, limits)?;
        let access_level = u8::decode(stream, limits)?;
        let user_access_level = u8::decode(stream, limits)?;
        let minimum_sampling_interval = u64::decode(stream, limits)?;
        let historizing = bool::decode(stream, limits)?;
        Ok(
            VariableAttributes {
                specified_attributes,
                display_name,
                description,
                write_mask,
                user_write_mask,
                value,
                data_type,
                value_rank,
                array_dimensions,
                access_level,
                user_access_level,
                minimum_sampling_interval,
                historizing,
            },
        )
    }
}

} // verus!
