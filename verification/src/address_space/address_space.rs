//! The nodes of a server and the references between them.

use vstd::prelude::*;
use crate::address_space::node::{NodeType, NodeTypeView};
use crate::address_space::references::{
    NodeReference, Reference, ReferenceView, directed, directed_all, node_references_view,
};
use crate::node_id::{NodeId, NodeIdView};

verus! {

/// The address space: the nodes, each under its id, and the references
/// between them. No two nodes have the same id.
#[derive(Debug)]
pub struct AddressSpace {
    nodes: Vec<NodeType>,
    references: Vec<Reference>,
}

/// The value of an `AddressSpace`: its nodes in the order in which they came,
/// and its references in that order too.
pub struct AddressSpaceView {
    pub nodes: Seq<NodeTypeView>,
    pub references: Seq<ReferenceView>,
}

impl AddressSpaceView {
    /// Whether a node with this id is there.
    pub open spec fn has_node(self, node_id: NodeIdView) -> bool {
        exists|i: int| 0 <= i < self.nodes.len() && (#[trigger] self.nodes[i]).base().node_id == node_id
    }

    /// Whether no two nodes have the same id.
    pub open spec fn is_valid(self) -> bool {
        forall|i: int, j: int|
            0 <= i < j < self.nodes.len() ==> (#[trigger] self.nodes[i]).base().node_id != (
            #[trigger] self.nodes[j]).base().node_id
    }

    /// The address space after a node came with the references that it
    /// states. Where a node with its id is there, nothing changes.
    pub open spec fn inserted(self, node: NodeTypeView, references: Seq<ReferenceView>) -> Self {
        if self.has_node(node.base().node_id) {
            self
        } else {
            AddressSpaceView {
                nodes: self.nodes.push(node),
                references: self.references + references,
            }
        }
    }
}

/// The values of nodes.
pub open spec fn nodes_view(nodes: Seq<NodeType>) -> Seq<NodeTypeView> {
    Seq::new(nodes.len(), |i: int| nodes[i]@)
}

/// The values of references.
pub open spec fn references_view(references: Seq<Reference>) -> Seq<ReferenceView> {
    Seq::new(references.len(), |i: int| references[i]@)
}

impl View for AddressSpace {
    type V = AddressSpaceView;

    closed spec fn view(&self) -> AddressSpaceView {
        AddressSpaceView {
            nodes: nodes_view(self.nodes@),
            references: references_view(self.references@),
        }
    }
}

impl AddressSpace {
    #[verifier::type_invariant]
    spec fn distinct_ids(&self) -> bool {
        self@.is_valid()
    }

    /// An address space without nodes.
    pub fn new() -> (r: AddressSpace)
        ensures
            r@.nodes.len() == 0,
            r@.references.len() == 0,
    {
        AddressSpace { nodes: Vec::new(), references: Vec::new() }
    }

    /// The place of the node with the given id, if it is there.
    fn position(&self, node_id: &NodeId) -> (r: Option<usize>)
        ensures
            r is Some <==> self@.has_node(node_id@),
            r matches Some(i) ==> i < self.nodes@.len() && self.nodes@[i as int]@.base().node_id
                == node_id@,
    {
        let mut i: usize = 0;
        while i < self.nodes.len()
            invariant
                i <= self.nodes@.len(),
                forall|k: int| 0 <= k < i ==> self.nodes@[k]@.base().node_id != node_id@,
            decreases self.nodes@.len() - i,
        {
            if self.nodes[i].node_id().is_same(node_id) {
                assert(self@.nodes[i as int].base().node_id == node_id@);
                return Some(i);
            }
            i += 1;
        }
        None
    }

    /// Tests whether a node with the given id is there.
    pub fn node_exists(&self, node_id: &NodeId) -> (r: bool)
        ensures
            r == self@.has_node(node_id@),
            self@.is_valid(),
    {
        proof {
            use_type_invariant(self);
        }
        self.position(node_id).is_some()
    }

    /// The node with the given id, if it is there.
    pub fn find(&self, node_id: &NodeId) -> (r: Option<&NodeType>)
        ensures
            r is Some <==> self@.has_node(node_id@),
            r matches Some(node) ==> node@.base().node_id == node_id@ && self@.nodes.contains(
                node@,
            ),
    {
        match self.position(node_id) {
            Some(i) => {
                assert(self@.nodes[i as int] == self.nodes@[i as int]@);
                Some(&self.nodes[i])
            },
            None => None,
        }
    }

    /// The number of nodes.
    pub fn len(&self) -> (r: usize)
        ensures
            r == self@.nodes.len(),
    {
        self.nodes.len()
    }

    /// The number of references.
    pub fn references_len(&self) -> (r: usize)
        ensures
            r == self@.references.len(),
    {
        self.references.len()
    }

    /// Tests whether there is a reference of the given type from one node to
    /// another.
    pub fn has_reference(&self, source: &NodeId, reference_type: &NodeId, target: &NodeId) -> (r:
        bool)
        ensures
            r == self@.references.contains(
                ReferenceView {
                    source: source@,
                    reference_type: reference_type@,
                    target: target@,
                },
            ),
    {
        let ghost wanted = ReferenceView {
            source: source@,
            reference_type: reference_type@,
            target: target@,
        };
        let mut i: usize = 0;
        while i < self.references.len()
            invariant
                i <= self.references@.len(),
                wanted == (ReferenceView {
                    source: source@,
                    reference_type: reference_type@,
                    target: target@,
                }),
                forall|k: int| 0 <= k < i ==> self@.references[k] != wanted,
            decreases self.references@.len() - i,
        {
            let reference = &self.references[i];
            if reference.source.is_same(source) && reference.reference_type.is_same(reference_type)
                && reference.target.is_same(target) {
                assert(self@.references[i as int] == wanted);
                return true;
            }
            i += 1;
        }
        false
    }

    /// Inserts a node with the references that it states. Returns false, and
    /// changes nothing, where a node with its id is there.
    pub fn insert(&mut self, node: NodeType, references: &[NodeReference]) -> (r: bool)
        ensures
            r == !old(self)@.has_node(node@.base().node_id),
            final(self)@.is_valid(),
            final(self)@.has_node(node@.base().node_id),
            final(self)@ == old(self)@.inserted(
                node@,
                directed_all(node@.base().node_id, node_references_view(references@)),
            ),
    {
        proof {
            use_type_invariant(&*self);
        }
        let node_id = node.node_id();
        if self.node_exists(&node_id) {
            false
        } else {
            let ghost before = self@;
            let mut nodes: Vec<NodeType> = Vec::new();
            let mut links: Vec<Reference> = Vec::new();
            std::mem::swap(&mut self.nodes, &mut nodes);
            std::mem::swap(&mut self.references, &mut links);
            nodes.push(node);
            let mut i: usize = 0;
            while i < references.len()
                invariant
                    i <= references@.len(),
                    node_id@ == node@.base().node_id,
                    references_view(links@) == before.references + directed_all(
                        node_id@,
                        node_references_view(references@),
                    ).take(i as int),
                decreases references@.len() - i,
            {
                let ghost earlier = links@;
                links.push(Reference::new(&node_id, &references[i]));
                assert(references_view(links@) =~= references_view(earlier).push(
                    directed(node_id@, node_references_view(references@)[i as int]),
                ));
                assert(references_view(links@) =~= before.references + directed_all(
                    node_id@,
                    node_references_view(references@),
                ).take(i + 1));
                i += 1;
            }
            assert(directed_all(node_id@, node_references_view(references@)).take(i as int)
                =~= directed_all(node_id@, node_references_view(references@)));
            assert(nodes_view(nodes@) =~= before.nodes.push(node@));
            self.nodes = nodes;
            self.references = links;
            assert(self@.is_valid()) by {
                assert forall|a: int, b: int| 0 <= a < b < self@.nodes.len() implies (
                #[trigger] self@.nodes[a]).base().node_id != (#[trigger] self@.nodes[b]).base().node_id by {
                    if b < before.nodes.len() {
                        assert(before.nodes[a].base().node_id != before.nodes[b].base().node_id);
                    } else {
                        assert(before.nodes[a].base().node_id != node@.base().node_id);
                    }
                }
            }
            assert(self@.nodes[before.nodes.len() as int].base().node_id == node@.base().node_id);
            true
        }
    }
}

} // verus!
