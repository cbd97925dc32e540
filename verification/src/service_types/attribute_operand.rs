//! The attribute operand of a content filter.

use vstd::prelude::*;
use crate::encoding::{
    BinaryEncoder, DecodingLimits, EncodingResult, ReadStream, add_part_len, lemma_concat_assoc,
    lemma_extends_refl, write_part,
};
use crate::node_id::{NodeId, NodeIdView};
use crate::service_types::relative_path::{RelativePath, RelativePathView};
use crate::status_codes::StatusCode;
use crate::string::UAString;

verus! {

/// An operand of a content filter that names an attribute of a node reached by a path.
#[derive(Clone, Debug, PartialEq, Eq)]
pub struct AttributeOperand {
    /// The node that the path starts from.
    pub node_id: NodeId,
    /// A name by which other operands refer to the node.
    pub alias: UAString,
    /// The path from the node to the node with the attribute.
    pub browse_path: RelativePath,
    /// The attribute.
    pub attribute_id: u32,
    /// The part of an array value that is meant.
    pub index_range: UAString,
}

/// The value of a `AttributeOperand`.
pub struct AttributeOperandView {
    pub node_id: NodeIdView,
    pub alias: Option<Seq<char>>,
    pub browse_path: RelativePathView,
    pub attribute_id: u32,
    pub index_range: Option<Seq<char>>,
}

impl View for AttributeOperand {
    type V = AttributeOperandView;

    open spec fn view(&self) -> AttributeOperandView {
        AttributeOperandView {
            node_id: self.node_id@,
            alias: self.alias@,
            browse_path: self.browse_path@,
            attribute_id: self.attribute_id,
            index_range: self.index_range@,
        }
    }
}

/// Wire form of a `AttributeOperand`: its fields in the order of their declaration.
pub open spec fn attribute_operand_encoding(v: AttributeOperandView) -> Seq<u8> {
    NodeId::encoding(v.node_id) + UAString::encoding(v.alias)
        + RelativePath::encoding(v.browse_path) + u32::encoding(v.attribute_id)
        + UAString::encoding(v.index_range)
}

/// A `AttributeOperand` off the front of `s`: its fields, one behind the other.
#[verifier::opaque]
pub open spec fn attribute_operand_decoding(s: Seq<u8>, limits: DecodingLimits) -> Result<
    (AttributeOperandView, Seq<u8>),
    StatusCode,
> {
    match NodeId::decoding(s, limits) {
        Err(e) => Err(e),
        Ok((node_id, s)) =>
            match UAString::decoding(s, limits) {
                Err(e) => Err(e),
                Ok((alias, s)) =>
                    match RelativePath::decoding(s, limits) {
                        Err(e) => Err(e),
                        Ok((browse_path, s)) =>
                            match u32::decoding(s, limits) {
                                Err(e) => Err(e),
                                Ok((attribute_id, s)) =>
                                    match UAString::decoding(s, limits) {
                                        Err(e) => Err(e),
                                        Ok((index_range, s)) =>
                                            Ok((
                                                AttributeOperandView {
                                                    node_id,
                                                    alias,
                                                    browse_path,
                                                    attribute_id,
                                                    index_range,
                                                },
                                                s,
                                            )),
                                    },
                            },
                    },
            },
    }
}

impl BinaryEncoder for AttributeOperand {
    open spec fn encoding(v: AttributeOperandView) -> Seq<u8> {
        attribute_operand_encoding(v)
    }

    open spec fn encodable(v: AttributeOperandView) -> bool {
        &&& NodeId::encodable(v.node_id)
        &&& UAString::encodable(v.alias)
        &&& RelativePath::encodable(v.browse_path)
        &&& UAString::encodable(v.index_range)
    }

    open spec fn within(v: AttributeOperandView, limits: DecodingLimits) -> bool {
        &&& NodeId::within(v.node_id, limits)
        &&& UAString::within(v.alias, limits)
        &&& RelativePath::within(v.browse_path, limits)
        &&& UAString::within(v.index_range, limits)
    }

    open spec fn decoding(s: Seq<u8>, limits: DecodingLimits) -> Result<
        (AttributeOperandView, Seq<u8>),
        StatusCode,
    > {
        attribute_operand_decoding(s, limits)
    }

    proof fn lemma_round_trip(v: AttributeOperandView, rest: Seq<u8>, limits: DecodingLimits) {
        reveal(attribute_operand_decoding);
        let p0 = NodeId::encoding(v.node_id);
        let p1 = UAString::encoding(v.alias);
        let p2 = RelativePath::encoding(v.browse_path);
        let p3 = u32::encoding(v.attribute_id);
        let p4 = UAString::encoding(v.index_range);
        let r4 = p4 + rest;
        let r3 = p3 + r4;
        let r2 = p2 + r3;
        let r1 = p1 + r2;
        lemma_concat_assoc(p0 + p1 + p2 + p3, p4, rest);
        lemma_concat_assoc(p0 + p1 + p2, p3, r4);
        lemma_concat_assoc(p0 + p1, p2, r3);
        lemma_concat_assoc(p0, p1, r2);
        NodeId::lemma_round_trip(v.node_id, r1, limits);
        UAString::lemma_round_trip(v.alias, r2, limits);
        RelativePath::lemma_round_trip(v.browse_path, r3, limits);
        u32::lemma_round_trip(v.attribute_id, r4, limits);
        UAString::lemma_round_trip(v.index_range, rest, limits);
    }

    fn byte_len(&self) -> (r: usize) {
        let ghost v = self@;
        let ghost e0 = NodeId::encoding(v.node_id);
        let ghost e1 = e0 + UAString::encoding(v.alias);
        let ghost e2 = e1 + RelativePath::encoding(v.browse_path);
        let ghost e3 = e2 + u32::encoding(v.attribute_id);
        let ghost e4 = e3 + UAString::encoding(v.index_range);
        let mut size: usize = self.node_id.byte_len();
        size = add_part_len(
            size,
            self.alias.byte_len(),
            Ghost(e0),
            Ghost(UAString::encoding(v.alias)),
        );
        size = add_part_len(
            size,
            self.browse_path.byte_len(),
            Ghost(e1),
            Ghost(RelativePath::encoding(v.browse_path)),
        );
        size = add_part_len(
            size,
            self.attribute_id.byte_len(),
            Ghost(e2),
            Ghost(u32::encoding(v.attribute_id)),
        );
        size = add_part_len(
            size,
            self.index_range.byte_len(),
            Ghost(e3),
            Ghost(UAString::encoding(v.index_range)),
        );
        size
    }

    fn encode(&self, stream: &mut Vec<u8>) -> (r: EncodingResult<usize>) {
        let start = stream.len();
        let ghost o = stream@;
        let ghost v = self@;
        proof {
            lemma_extends_refl(o);
        }
        write_part(stream, &self.node_id, Ghost(o))?;
        write_part(stream, &self.alias, Ghost(o))?;
        write_part(stream, &self.browse_path, Ghost(o))?;
        write_part(stream, &self.attribute_id, Ghost(o))?;
        write_part(stream, &self.index_range, Ghost(o))?;
        proof {
            let p0 = NodeId::encoding(v.node_id);
            let p1 = UAString::encoding(v.alias);
            let p2 = RelativePath::encoding(v.browse_path);
            let p3 = u32::encoding(v.attribute_id);
            let p4 = UAString::encoding(v.index_range);
            lemma_concat_assoc(o, p0, p1);
            lemma_concat_assoc(o, p0 + p1, p2);
            lemma_concat_assoc(o, p0 + p1 + p2, p3);
            lemma_concat_assoc(o, p0 + p1 + p2 + p3, p4);
        }
        Ok(stream.len() - start)
    }

    fn decode(stream: &mut ReadStream, limits: &DecodingLimits) -> (r: EncodingResult<Self>) {
        proof {
            reveal(attribute_operand_decoding);
        }
        let node_id = NodeId::decode(stream, limits)?;
        let alias = UAString::decode(stream, limits)?;
        let browse_path = RelativePath::decode(stream, limits)?;
        let attribute_id = u32::decode(stream, limits)?;
        let index_range = UAString::decode(stream, limits)?;
        Ok(AttributeOperand { node_id, alias, browse_path, attribute_id, index_range })
    }
}

} // verus!
