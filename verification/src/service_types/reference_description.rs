//! The description of a reference that a browse found.

use vstd::prelude::*;
use crate::encoding::{
    BinaryEncoder, DecodingLimits, EncodingResult, ReadStream, add_part_len, lemma_concat_assoc,
    lemma_extends_refl, write_part,
};
use crate::expanded_node_id::{ExpandedNodeId, ExpandedNodeIdView};
use crate::localized_text::{LocalizedText, LocalizedTextView};
use crate::node_id::{NodeId, NodeIdView};
use crate::qualified_name::{QualifiedName, QualifiedNameView};
use crate::service_types::NodeClass;
use crate::status_codes::StatusCode;

verus! {

/// Describes a reference and the node at its end.
#[derive(Clone, Debug, PartialEq, Eq)]
pub struct ReferenceDescription {
    /// The type of the reference.
    pub reference_type_id: NodeId,
    /// Whether the reference was followed in its direction.
    pub is_forward: bool,
    /// The node at the end of the reference.
    pub node_id: ExpandedNodeId,
    /// The browse name of that node.
    pub browse_name: QualifiedName,
    /// The display name of that node.
    pub display_name: LocalizedText,
    /// The class of that node.
    pub node_class: NodeClass,
    /// The type of that node, where it is an object or a variable.
    pub type_definition: ExpandedNodeId,
}

/// The value of a `ReferenceDescription`.
pub struct ReferenceDescriptionView {
    pub reference_type_id: NodeIdView,
    pub is_forward: bool,
    pub node_id: ExpandedNodeIdView,
    pub browse_name: QualifiedNameView,
    pub display_name: LocalizedTextView,
    pub node_class: NodeClass,
    pub type_definition: ExpandedNodeIdView,
}

impl View for ReferenceDescription {
    type V = ReferenceDescriptionView;

    open spec fn view(&self) -> ReferenceDescriptionView {
        ReferenceDescriptionView {
            reference_type_id: self.reference_type_id@,
            is_forward: self.is_forward,
            node_id: self.node_id@,
            browse_name: self.browse_name@,
            display_name: self.display_name@,
            node_class: self.node_class,
            type_definition: self.type_definition@,
        }
    }
}

/// Wire form of a `ReferenceDescription`: its fields in the order of their declaration.
pub open spec fn reference_description_encoding(v: ReferenceDescriptionView) -> Seq<u8> {
    NodeId::encoding(v.reference_type_id) + bool::encoding(v.is_forward)
        + ExpandedNodeId::encoding(v.node_id) + QualifiedName::encoding(v.browse_name)
        + LocalizedText::encoding(v.display_name) + NodeClass::encoding(v.node_class)
        + ExpandedNodeId::encoding(v.type_definition)
}

/// A `ReferenceDescription` off the front of `s`: its fields, one behind the other.
#[verifier::opaque]
pub open spec fn reference_description_decoding(s: Seq<u8>, limits: DecodingLimits) -> Result<
    (ReferenceDescriptionView, Seq<u8>),
    StatusCode,
> {
    match NodeId::decoding(s, limits) {
        Err(e) => Err(e),
        Ok((reference_type_id, s)) =>
            match bool::decoding(s, limits) {
                Err(e) => Err(e),
                Ok((is_forward, s)) =>
                    match ExpandedNodeId::decoding(s, limits) {
                        Err(e) => Err(e),
                        Ok((node_id, s)) =>
                            match QualifiedName::decoding(s, limits) {
                                Err(e) => Err(e),
                                Ok((browse_name, s)) =>
                                    match LocalizedText::decoding(s, limits) {
                                        Err(e) => Err(e),
                                        Ok((display_name, s)) =>
                                            match NodeClass::decoding(s, limits) {
                                                Err(e) => Err(e),
                                                Ok((node_class, s)) =>
                                                    match ExpandedNodeId::decoding(s, limits) {
                                                        Err(e) => Err(e),
                                                        Ok((type_definition, s)) =>
                                                            Ok((
                                                                ReferenceDescriptionView {
                                                                    reference_type_id,
                                                                    is_forward,
                                                                    node_id,
                                                                    browse_name,
                                                                    display_name,
                                                                    node_class,
                                                                    type_definition,
                                                                },
                                                                s,
                                                            )),
                                                    },
                                            },
                                    },
                            },
                    },
            },
    }
}

impl BinaryEncoder for ReferenceDescription {
    open spec fn encoding(v: ReferenceDescriptionView) -> Seq<u8> {
        reference_description_encoding(v)
    }

    open spec fn encodable(v: ReferenceDescriptionView) -> bool {
        &&& NodeId::encodable(v.reference_type_id)
        &&& ExpandedNodeId::encodable(v.node_id)
        &&& QualifiedName::encodable(v.browse_name)
        &&& LocalizedText::encodable(v.display_name)
        &&& NodeClass::encodable(v.node_class)
        &&& ExpandedNodeId::encodable(v.type_definition)
    }

    open spec fn within(v: ReferenceDescriptionView, limits: DecodingLimits) -> bool {
        &&& NodeId::within(v.reference_type_id, limits)
        &&& ExpandedNodeId::within(v.node_id, limits)
        &&& QualifiedName::within(v.browse_name, limits)
        &&& LocalizedText::within(v.display_name, limits)
        &&& NodeClass::within(v.node_class, limits)
        &&& ExpandedNodeId::within(v.type_definition, limits)
    }

    open spec fn decoding(s: Seq<u8>, limits: DecodingLimits) -> Result<
        (ReferenceDescriptionView, Seq<u8>),
        StatusCode,
    > {
        reference_description_decoding(s, limits)
    }

    proof fn lemma_round_trip(v: ReferenceDescriptionView, rest: Seq<u8>, limits: DecodingLimits) {
        reveal(reference_description_decoding);
        let p0 = NodeId::encoding(v.reference_type_id);
        let p1 = bool::encoding(v.is_forward);
        let p2 = ExpandedNodeId::encoding(v.node_id);
        let p3 = QualifiedName::encoding(v.browse_name);
        let p4 = LocalizedText::encoding(v.display_name);
        let p5 = NodeClass::encoding(v.node_class);
        let p6 = ExpandedNodeId::encoding(v.type_definition);
        let r6 = p6 + rest;
        let r5 = p5 + r6;
        let r4 = p4 + r5;
        let r3 = p3 + r4;
        let r2 = p2 + r3;
        let r1 = p1 + r2;
        lemma_concat_assoc(p0 + p1 + p2 + p3 + p4 + p5, p6, rest);
        lemma_concat_assoc(p0 + p1 + p2 + p3 + p4, p5, r6);
        lemma_concat_assoc(p0 + p1 + p2 + p3, p4, r5);
        lemma_concat_assoc(p0 + p1 + p2, p3, r4);
        lemma_concat_assoc(p0 + p1, p2, r3);
        lemma_concat_assoc(p0, p1, r2);
        NodeId::lemma_round_trip(v.reference_type_id, r1, limits);
        bool::lemma_round_trip(v.is_forward, r2, limits);
        ExpandedNodeId::lemma_round_trip(v.node_id, r3, limits);
        QualifiedName::lemma_round_trip(v.browse_name, r4, limits);
        LocalizedText::lemma_round_trip(v.display_name, r5, limits);
        NodeClass::lemma_round_trip(v.node_class, r6, limits);
        ExpandedNodeId::lemma_round_trip(v.type_definition, rest, limits);
    }

    fn byte_len(&self) -> (r: usize) {
        let ghost v = self@;
        let ghost e0 = NodeId::encoding(v.reference_type_id);
        let ghost e1 = e0 + bool::encoding(v.is_forward);
        let ghost e2 = e1 + ExpandedNodeId::encoding(v.node_id);
        let ghost e3 = e2 + QualifiedName::encoding(v.browse_name);
        let ghost e4 = e3 + LocalizedText::encoding(v.display_name);
        let ghost e5 = e4 + NodeClass::encoding(v.node_class);
        let ghost e6 = e5 + ExpandedNodeId::encoding(v.type_definition);
        let mut size: usize = self.reference_type_id.byte_len();
        size = add_part_len(
            size,
            self.is_forward.byte_len(),
            Ghost(e0),
            Ghost(bool::encoding(v.is_forward)),
        );
        size = add_part_len(
            size,
            self.node_id.byte_len(),
            Ghost(e1),
            Ghost(ExpandedNodeId::encoding(v.node_id)),
        );
        size = add_part_len(
            size,
            self.browse_name.byte_len(),
            Ghost(e2),
            Ghost(QualifiedName::encoding(v.browse_name)),
        );
        size = add_part_len(
            size,
            self.display_name.byte_len(),
            Ghost(e3),
            Ghost(LocalizedText::encoding(v.display_name)),
        );
        size = add_part_len(
            size,
            self.node_class.byte_len(),
            Ghost(e4),
            Ghost(NodeClass::encoding(v.node_class)),
        );
        size = add_part_len(
            size,
            self.type_definition.byte_len(),
            Ghost(e5),
            Ghost(ExpandedNodeId::encoding(v.type_definition)),
        );
        size
    }

    fn encode(&self, stream: &mut Vec<u8>) -> (r: EncodingResult<usize>) {
        let start = stream.len();
        let ghost o = stream@;
        let ghost v = self@;
        proof {
            lemma_extends_refl(o);
        }
        write_part(stream, &self.reference_type_id, Ghost(o))?;
        write_part(stream, &self.is_forward, Ghost(o))?;
        write_part(stream, &self.node_id, Ghost(o))?;
        write_part(stream, &self.browse_name, Ghost(o))?;
        write_part(stream, &self.display_name, Ghost(o))?;
        write_part(stream, &self.node_class, Ghost(o))?;
        write_part(stream, &self.type_definition, Ghost(o))?;
        proof {
            let p0 = NodeId::encoding(v.reference_type_id);
            let p1 = bool::encoding(v.is_forward);
            let p2 = ExpandedNodeId::encoding(v.node_id);
            let p3 = QualifiedName::encoding(v.browse_name);
            let p4 = LocalizedText::encoding(v.display_name);
            let p5 = NodeClass::encoding(v.node_class);
            let p6 = ExpandedNodeId::encoding(v.type_definition);
            lemma_concat_assoc(o, p0, p1);
            lemma_concat_assoc(o, p0 + p1, p2);
            lemma_concat_assoc(o, p0 + p1 + p2, p3);
            lemma_concat_assoc(o, p0 + p1 + p2 + p3, p4);
            lemma_concat_assoc(o, p0 + p1 + p2 + p3 + p4, p5);
            lemma_concat_assoc(o, p0 + p1 + p2 + p3 + p4 + p5, p6);
        }
        Ok(stream.len() - start)
    }

    fn decode(stream: &mut ReadStream, limits: &DecodingLimits) -> (r: EncodingResult<Self>) {
        proof {
            reveal(reference_description_decoding);
        }
        let reference_type_id = NodeId::decode(stream, limits)?;
        let is_forward = bool::decode(stream, limits)?;
        let node_id = ExpandedNodeId::decode(stream, limits)?;
        let browse_name = QualifiedName::decode(stream, limits)?;
        let display_name = LocalizedText::decode(stream, limits)?;
        let node_class = NodeClass::decode(stream, limits)?;
        let type_definition = ExpandedNodeId::decode(stream, limits)?;
        Ok(
            ReferenceDescription {
                reference_type_id,
                is_forward,
                node_id,
                browse_name,
                display_name,
                node_class,
                type_definition,
            },
        )
    }
}

} // verus!
