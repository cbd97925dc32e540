//! References between the nodes of the address space.

use vstd::prelude::*;
use crate::node_id::{NodeId, NodeIdView};

verus! {

/// The side from which a reference is told: from its source or from its
/// target.
#[derive(Debug, Clone, Copy, PartialEq, Eq, Structural)]
pub enum ReferenceDirection {
    Forward,
    Inverse,
}

/// A reference from one node to another, of the type that a third node
/// describes.
#[derive(Debug)]
pub struct Reference {
    pub source: NodeId,
    pub reference_type: NodeId,
    pub target: NodeId,
}

/// The value of a `Reference`.
pub struct ReferenceView {
    pub source: NodeIdView,
    pub reference_type: NodeIdView,
    pub target: NodeIdView,
}

impl View for Reference {
    type V = ReferenceView;

    open spec fn view(&self) -> ReferenceView {
        ReferenceView {
            source: self.source@,
            reference_type: self.reference_type@,
            target: self.target@,
        }
    }
}

/// What a node says of one of its references: the other node, the type of
/// the reference, and the side on which the node itself stands (forward: the
/// node is the source).
pub type NodeReference = (NodeId, NodeId, ReferenceDirection);

/// The value of a `NodeReference`.
pub type NodeReferenceView = (NodeIdView, NodeIdView, ReferenceDirection);

/// The values of the references that a node states.
pub open spec fn node_references_view(references: Seq<NodeReference>) -> Seq<NodeReferenceView> {
    Seq::new(
        references.len(),
        |i: int| (references[i].0@, references[i].1@, references[i].2),
    )
}

/// One more stated reference is one more value, at the end.
pub proof fn lemma_node_references_push(references: Seq<NodeReference>, reference: NodeReference)
    ensures
        node_references_view(references.push(reference)) == node_references_view(references).push(
            (reference.0@, reference.1@, reference.2),
        ),
{
    assert(node_references_view(references.push(reference)) =~= node_references_view(
        references,
    ).push((reference.0@, reference.1@, reference.2)));
}

/// The reference that the node `node_id` states with `reference`: from the
/// node to the other one where the direction is forward, from the other one
/// to the node where it is inverse.
pub open spec fn directed(node_id: NodeIdView, reference: NodeReferenceView) -> ReferenceView {
    match reference.2 {
        ReferenceDirection::Forward => ReferenceView {
            source: node_id,
            reference_type: reference.1,
            target: reference.0,
        },
        ReferenceDirection::Inverse => ReferenceView {
            source: reference.0,
            reference_type: reference.1,
            target: node_id,
        },
    }
}

/// The references that the node `node_id` states, each with its direction
/// resolved, in the order in which they are stated.
pub open spec fn directed_all(node_id: NodeIdView, references: Seq<NodeReferenceView>) -> Seq<
    ReferenceView,
> {
    Seq::new(references.len(), |i: int| directed(node_id, references[i]))
}

impl Reference {
    /// The reference that the node `node_id` states with `reference`.
    pub fn new(node_id: &NodeId, reference: &NodeReference) -> (r: Reference)
        ensures
            r@ == directed(node_id@, (reference.0@, reference.1@, reference.2)),
    {
        match reference.2 {
            ReferenceDirection::Forward => Reference {
                source: node_id.clone(),
                reference_type: reference.1.clone(),
                target: reference.0.clone(),
            },
            ReferenceDirection::Inverse => Reference {
                source: reference.0.clone(),
                reference_type: reference.1.clone(),
                target: node_id.clone(),
            },
        }
    }
}

} // verus!
