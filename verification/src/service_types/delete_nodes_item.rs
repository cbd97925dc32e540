//! An item of a request to delete nodes.

use vstd::prelude::*;
use crate::encoding::{
    BinaryEncoder, DecodingLimits, EncodingResult, ReadStream, add_part_len, lemma_concat_assoc,
    lemma_extends_refl, write_part,
};
use crate::node_id::{NodeId, NodeIdView};
use crate::status_codes::StatusCode;

verus! {

/// A node to delete.
#[derive(Clone, Debug, PartialEq, Eq)]
pub struct DeleteNodesItem {
    /// The node to delete.
    pub node_id: NodeId,
    /// Whether the references that point at the node are deleted too.
    pub delete_target_references: bool,
}

/// The value of a `DeleteNodesItem`.
pub struct DeleteNodesItemView {
    pub node_id: NodeIdView,
    pub delete_target_references: bool,
}

impl View for DeleteNodesItem {
    type V = DeleteNodesItemView;

    open spec fn view(&self) -> DeleteNodesItemView {
        DeleteNodesItemView {
            node_id: self.node_id@,
            delete_target_references: self.delete_target_references,
        }
    }
}

/// Wire form of a `DeleteNodesItem`: its fields in the order of their declaration.
pub open spec fn delete_nodes_item_encoding(v: DeleteNodesItemView) -> Seq<u8> {
    NodeId::encoding(v.node_id) + bool::encoding(v.delete_target_references)
}

/// A `DeleteNodesItem` off the front of `s`: its fields, one behind the other.
#[verifier::opaque]
pub open spec fn delete_nodes_item_decoding(s: Seq<u8>, limits: DecodingLimits) -> Result<
    (DeleteNodesItemView, Seq<u8>),
    StatusCode,
> {
    match NodeId::decoding(s, limits) {
        Err(e) => Err(e),
        Ok((node_id, s)) =>
            match bool::decoding(s, limits) {
                Err(e) => Err(e),
                Ok((delete_target_references, s)) =>
                    Ok((DeleteNodesItemView { node_id, delete_target_references }, s)),
            },
    }
}

impl BinaryEncoder for DeleteNodesItem {
    open spec fn encoding(v: DeleteNodesItemView) -> Seq<u8> {
        delete_nodes_item_encoding(v)
    }

    open spec fn encodable(v: DeleteNodesItemView) -> bool {
        &&& NodeId::encodable(v.node_id)
    }

    open spec fn within(v: DeleteNodesItemView, limits: DecodingLimits) -> bool {
        &&& NodeId::within(v.node_id, limits)
    }

    open spec fn decoding(s: Seq<u8>, limits: DecodingLimits) -> Result<
        (DeleteNodesItemView, Seq<u8>),
        StatusCode,
    > {
        delete_nodes_item_decoding(s, limits)
    }

    proof fn lemma_round_trip(v: DeleteNodesItemView, rest: Seq<u8>, limits: DecodingLimits) {
        reveal(delete_nodes_item_decoding);
        let p0 = NodeId::encoding(v.node_id);
        let p1 = bool::encoding(v.delete_target_references);
        let r1 = p1 + rest;
        lemma_concat_assoc(p0, p1, rest);
        NodeId::lemma_round_trip(v.node_id, r1, limits);
        bool::lemma_round_trip(v.delete_target_references, rest, limits);
    }

    fn byte_len(&self) -> (r: usize) {
        let ghost v = self@;
        let ghost e0 = NodeId::encoding(v.node_id);
        let ghost e1 = e0 + bool::encoding(v.delete_target_references);
        let mut size: usize = self.node_id.byte_len();
        size = add_part_len(
            size,
            self.delete_target_references.byte_len(),
            Ghost(e0),
            Ghost(bool::encoding(v.delete_target_references)),
        );
        size
    }

    fn encode(&self, stream: &mut Vec<u8>) -> (r: EncodingResult<usize>) {
        let start = stream.len();
        let ghost o = stream@;
        let ghost v = self@;
        proof {
            lemma_extends_refl(o);
        }
        write_part(stream, &self.node_id, Ghost(o))?;
        write_part(stream, &self.delete_target_references, Ghost(o))?;
        proof {
            let p0 = NodeId::encoding(v.node_id);
            let p1 = bool::encoding(v.delete_target_references);
            lemma_concat_assoc(o, p0, p1);
        }
        Ok(stream.len() - start)
    }

    fn decode(stream: &mut ReadStream, limits: &DecodingLimits) -> (r: EncodingResult<Self>) {
        proof {
            reveal(delete_nodes_item_decoding);
        }
        let node_id = NodeId::decode(stream, limits)?;
        let delete_target_references = bool::decode(stream, limits)?;
        Ok(DeleteNodesItem { node_id, delete_target_references })
    }
}

} // verus!
