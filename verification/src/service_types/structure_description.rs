//! The description of a structured data type.

use vstd::prelude::*;
use crate::encoding::{
    BinaryEncoder, DecodingLimits, EncodingResult, ReadStream, add_part_len, lemma_concat_assoc,
    lemma_extends_refl, write_part,
};
use crate::node_id::{NodeId, NodeIdView};
use crate::qualified_name::{QualifiedName, QualifiedNameView};
use crate::service_types::structure_definition::{StructureDefinition, StructureDefinitionView};
use crate::status_codes::StatusCode;

verus! {

/// Describes a structured data type.
#[derive(Clone, Debug, PartialEq, Eq)]
pub struct StructureDescription {
    /// The node of the data type.
    pub data_type_id: NodeId,
    /// The name of the data type.
    pub name: QualifiedName,
    /// The fields of the structure.
    pub structure_definition: StructureDefinition,
}

/// The value of a `StructureDescription`.
pub struct StructureDescriptionView {
    pub data_type_id: NodeIdView,
    pub name: QualifiedNameView,
    pub structure_definition: StructureDefinitionView,
}

impl View for StructureDescription {
    type V = StructureDescriptionView;

    open spec fn view(&self) -> StructureDescriptionView {
        StructureDescriptionView {
            data_type_id: self.data_type_id@,
            name: self.name@,
            structure_definition: self.structure_definition@,
        }
    }
}

/// Wire form of a `StructureDescription`: its fields in the order of their declaration.
pub open spec fn structure_description_encoding(v: StructureDescriptionView) -> Seq<u8> {
    NodeId::encoding(v.data_type_id) + QualifiedName::encoding(v.name)
        + StructureDefinition::encoding(v.structure_definition)
}

/// A `StructureDescription` off the front of `s`: its fields, one behind the other.
#[verifier::opaque]
pub open spec fn structure_description_decoding(s: Seq<u8>, limits: DecodingLimits) -> Result<
    (StructureDescriptionView, Seq<u8>),
    StatusCode,
> {
    match NodeId::decoding(s, limits) {
        Err(e) => Err(e),
        Ok((data_type_id, s)) =>
            match QualifiedName::decoding(s, limits) {
                Err(e) => Err(e),
                Ok((name, s)) =>
                    match StructureDefinition::decoding(s, limits) {
                        Err(e) => Err(e),
                        Ok((structure_definition, s)) =>
                            Ok((
                                StructureDescriptionView {
                                    data_type_id,
                                    name,
                                    structure_definition,
                                },
                                s,
                            )),
                    },
            },
    }
}

impl BinaryEncoder for StructureDescription {
    open spec fn encoding(v: StructureDescriptionView) -> Seq<u8> {
        structure_description_encoding(v)
    }

    open spec fn encodable(v: StructureDescriptionView) -> bool {
        &&& NodeId::encodable(v.data_type_id)
        &&& QualifiedName::encodable(v.name)
        &&& StructureDefinition::encodable(v.structure_definition)
    }

    open spec fn within(v: StructureDescriptionView, limits: DecodingLimits) -> bool {
        &&& NodeId::within(v.data_type_id, limits)
        &&& QualifiedName::within(v.name, limits)
        &&& StructureDefinition::within(v.structure_definition, limits)
    }

    open spec fn decoding(s: Seq<u8>, limits: DecodingLimits) -> Result<
        (StructureDescriptionView, Seq<u8>),
        StatusCode,
    > {
        structure_description_decoding(s, limits)
    }

    proof fn lemma_round_trip(v: StructureDescriptionView, rest: Seq<u8>, limits: DecodingLimits) {
        reveal(structure_description_decoding);
        let p0 = NodeId::encoding(v.data_type_id);
        let p1 = QualifiedName::encoding(v.name);
        let p2 = StructureDefinition::encoding(v.structure_definition);
        let r2 = p2 + rest;
        let r1 = p1 + r2;
        lemma_concat_assoc(p0 + p1, p2, rest);
        lemma_concat_assoc(p0, p1, r2);
        NodeId::lemma_round_trip(v.data_type_id, r1, limits);
        QualifiedName::lemma_round_trip(v.name, r2, limits);
        StructureDefinition::lemma_round_trip(v.structure_definition, rest, limits);
    }

    fn byte_len(&self) -> (r: usize) {
        let ghost v = self@;
        let ghost e0 = NodeId::encoding(v.data_type_id);
        let ghost e1 = e0 + QualifiedName::encoding(v.name);
        let ghost e2 = e1 + StructureDefinition::encoding(v.structure_definition);
        let mut size: usize = self.data_type_id.byte_len();
        size = add_part_len(
            size,
            self.name.byte_len(),
            Ghost(e0),
            Ghost(QualifiedName::encoding(v.name)),
        );
        size = add_part_len(
            size,
            self.structure_definition.byte_len(),
            Ghost(e1),
            Ghost(StructureDefinition::encoding(v.structure_definition)),
        );
        size
    }

    fn encode(&self, stream: &mut Vec<u8>) -> (r: EncodingResult<usize>) {
        let start = stream.len();
        let ghost o = stream@;
        let ghost v = self@;
        proof {
            lemma_extends_refl(o);
        }
        write_part(stream, &self.data_type_id, Ghost(o))?;
        write_part(stream, &self.name, Ghost(o))?;
        write_part(stream, &self.structure_definition, Ghost(o))?;
        proof {
            let p0 = NodeId::encoding(v.data_type_id);
            let p1 = QualifiedName::encoding(v.name);
            let p2 = StructureDefinition::encoding(v.structure_definition);
            lemma_concat_assoc(o, p0, p1);
            lemma_concat_assoc(o, p0 + p1, p2);
        }
        Ok(stream.len() - start)
    }

    fn decode(stream: &mut ReadStream, limits: &DecodingLimits) -> (r: EncodingResult<Self>) {
        proof {
            reveal(structure_description_decoding);
        }
        let data_type_id = NodeId::decode(stream, limits)?;
        let name = QualifiedName::decode(stream, limits)?;
        let structure_definition = StructureDefinition::decode(stream, limits)?;
        Ok(StructureDescription { data_type_id, name, structure_definition })
    }
}

} // verus!
