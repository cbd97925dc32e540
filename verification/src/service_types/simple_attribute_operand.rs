//! The simple attribute operand of a content filter.

use vstd::prelude::*;
use crate::encoding::{
    BinaryEncoder, DecodingLimits, EncodingResult, ReadStream, add_part_len, array_decoding,
    array_encodable, array_encoding, array_view, array_within, byte_len_array,
    lemma_array_round_trip, lemma_concat_assoc, lemma_extends_refl, read_array, write_array_part,
    write_part,
};
use crate::node_id::{NodeId, NodeIdView};
use crate::qualified_name::{QualifiedName, QualifiedNameView};
use crate::status_codes::StatusCode;
use crate::string::UAString;

verus! {

/// An operand of a content filter that names an attribute of a node reached from a type by browse names.
#[derive(Clone, Debug, PartialEq, Eq)]
pub struct SimpleAttributeOperand {
    /// The type that the path starts from.
    pub type_definition_id: NodeId,
    /// The browse names to follow.
    pub browse_path: Option<Vec<QualifiedName>>,
    /// The attribute.
    pub attribute_id: u32,
    /// The part of an array value that is meant.
    pub index_range: UAString,
}

/// The value of a `SimpleAttributeOperand`.
pub struct SimpleAttributeOperandView {
    pub type_definition_id: NodeIdView,
    pub browse_path: Option<Seq<QualifiedNameView>>,
    pub attribute_id: u32,
    pub index_range: Option<Seq<char>>,
}

impl View for SimpleAttributeOperand {
    type V = SimpleAttributeOperandView;

    open spec fn view(&self) -> SimpleAttributeOperandView {
        SimpleAttributeOperandView {
            type_definition_id: self.type_definition_id@,
            browse_path: array_view(self.browse_path),
            attribute_id: self.attribute_id,
            index_range: self.index_range@,
        }
    }
}

/// Wire form of a `SimpleAttributeOperand`: its fields in the order of their declaration.
pub open spec fn simple_attribute_operand_encoding(v: SimpleAttributeOperandView) -> Seq<u8> {
    NodeId::encoding(v.type_definition_id) + array_encoding::<QualifiedName>(v.browse_path)
        + u32::encoding(v.attribute_id) + UAString::encoding(v.index_range)
}

/// A `SimpleAttributeOperand` off the front of `s`: its fields, one behind the other.
#[verifier::opaque]
pub open spec fn simple_attribute_operand_decoding(s: Seq<u8>, limits: DecodingLimits) -> Result<
    (SimpleAttributeOperandView, Seq<u8>),
    StatusCode,
> {
    match NodeId::decoding(s, limits) {
        Err(e) => Err(e),
        Ok((type_definition_id, s)) =>
            match array_decoding::<QualifiedName>(s, limits) {
                Err(e) => Err(e),
                Ok((browse_path, s)) =>
                    match u32::decoding(s, limits) {
                        Err(e) => Err(e),
                        Ok((attribute_id, s)) =>
                            match UAString::decoding(s, limits) {
                                Err(e) => Err(e),
                                Ok((index_range, s)) =>
                                    Ok((
                                        SimpleAttributeOperandView {
                                            type_definition_id,
                                            browse_path,
                                            attribute_id,
                                            index_range,
                                        },
                                        s,
                                    )),
                            },
                    },
            },
    }
}

impl BinaryEncoder for SimpleAttributeOperand {
    open spec fn encoding(v: SimpleAttributeOperandView) -> Seq<u8> {
        simple_attribute_operand_encoding(v)
    }

    open spec fn encodable(v: SimpleAttributeOperandView) -> bool {
        &&& NodeId::encodable(v.type_definition_id)
        &&& array_encodable::<QualifiedName>(v.browse_path)
        &&& UAString::encodable(v.index_range)
    }

    open spec fn within(v: SimpleAttributeOperandView, limits: DecodingLimits) -> bool {
        &&& NodeId::within(v.type_definition_id, limits)
        &&& array_within::<QualifiedName>(v.browse_path, limits)
        &&& UAString::within(v.index_range, limits)
    }

    open spec fn decoding(s: Seq<u8>, limits: DecodingLimits) -> Result<
        (SimpleAttributeOperandView, Seq<u8>),
        StatusCode,
    > {
        simple_attribute_operand_decoding(s, limits)
    }

    proof fn lemma_round_trip(v: SimpleAttributeOperandView, rest: Seq<u8>, limits: DecodingLimits) {
        reveal(simple_attribute_operand_decoding);
        let p0 = NodeId::encoding(v.type_definition_id);
        let p1 = array_encoding::<QualifiedName>(v.browse_path);
        let p2 = u32::encoding(v.attribute_id);
        let p3 = UAString::encoding(v.index_range);
        let r3 = p3 + rest;
        let r2 = p2 + r3;
        let r1 = p1 + r2;
        lemma_concat_assoc(p0 + p1 + p2, p3, rest);
        lemma_concat_assoc(p0 + p1, p2, r3);
        lemma_concat_assoc(p0, p1, r2);
        NodeId::lemma_round_trip(v.type_definition_id, r1, limits);
        lemma_array_round_trip::<QualifiedName>(v.browse_path, r2, limits);
        u32::lemma_round_trip(v.attribute_id, r3, limits);
        UAString::lemma_round_trip(v.index_range, rest, limits);
    }

    fn byte_len(&self) -> (r: usize) {
        let ghost v = self@;
        let ghost e0 = NodeId::encoding(v.type_definition_id);
        let ghost e1 = e0 + array_encoding::<QualifiedName>(v.browse_path);
        let ghost e2 = e1 + u32::encoding(v.attribute_id);
        let ghost e3 = e2 + UAString::encoding(v.index_range);
        let mut size: usize = self.type_definition_id.byte_len();
        size = add_part_len(
            size,
            byte_len_array(&self.browse_path),
            Ghost(e0),
            Ghost(array_encoding::<QualifiedName>(v.browse_path)),
        );
        size = add_part_len(
            size,
            self.attribute_id.byte_len(),
            Ghost(e1),
            Ghost(u32::encoding(v.attribute_id)),
        );
        size = add_part_len(
            size,
            self.index_range.byte_len(),
            Ghost(e2),
            Ghost(UAString::encoding(v.index_range)),
        );
        size
    }

    fn encode(&self, stream: &mut Vec<u8>) -> (r: EncodingResult<usize>) {
        let start = stream.len();
        let ghost o = stream@;
        let ghost v = self@;
        proof {
            lemma_extends_refl(o);
        }
        write_part(stream, &self.type_definition_id, Ghost(o))?;
        write_array_part(stream, &self.browse_path, Ghost(o))?;
        write_part(stream, &self.attribute_id, Ghost(o))?;
        write_part(stream, &self.index_range, Ghost(o))?;
        proof {
            let p0 = NodeId::encoding(v.type_definition_id);
            let p1 = array_encoding::<QualifiedName>(v.browse_path);
            let p2 = u32::encoding(v.attribute_id);
            let p3 = UAString::encoding(v.index_range);
            lemma_concat_assoc(o, p0, p1);
            lemma_concat_assoc(o, p0 + p1, p2);
            lemma_concat_assoc(o, p0 + p1 + p2, p3);
        }
        Ok(stream.len() - start)
    }

    fn decode(stream: &mut ReadStream, limits: &DecodingLimits) -> (r: EncodingResult<Self>) {
        proof {
            reveal(simple_attribute_operand_decoding);
        }
        let type_definition_id = NodeId::decode(stream, limits)?;
        let browse_path: Option<Vec<QualifiedName>> = read_array(stream, limits)?;
        let attribute_id = u32::decode(stream, limits)?;
        let index_range = UAString::decode(stream, limits)?;
        Ok(
            SimpleAttributeOperand {
                type_definition_id,
                browse_path,
                attribute_id,
                index_range,
            },
        )
    }
}

} // verus!
