//! The definition of a structured data type.

use vstd::prelude::*;
use crate::encoding::{
    BinaryEncoder, DecodingLimits, EncodingResult, ReadStream, add_part_len, array_decoding,
    array_encodable, array_encoding, array_view, array_within, byte_len_array,
    lemma_array_round_trip, lemma_concat_assoc, lemma_extends_refl, read_array, write_array_part,
    write_part,
};
use crate::node_id::{NodeId, NodeIdView};
use crate::service_types::structure_field::{StructureField, StructureFieldView};
use crate::service_types::structure_type::StructureType;
use crate::status_codes::StatusCode;

verus! {

/// The fields of a structure and how it travels.
#[derive(Clone, Debug, PartialEq, Eq)]
pub struct StructureDefinition {
    /// The node of the default encoding.
    pub default_encoding_id: NodeId,
    /// The data type that the structure extends.
    pub base_data_type: NodeId,
    /// The kind of structure.
    pub structure_type: StructureType,
    /// The fields.
    pub fields: Option<Vec<StructureField>>,
}

/// The value of a `StructureDefinition`.
pub struct StructureDefinitionView {
    pub default_encoding_id: NodeIdView,
    pub base_data_type: NodeIdView,
    pub structure_type: StructureType,
    pub fields: Option<Seq<StructureFieldView>>,
}

impl View for StructureDefinition {
    type V = StructureDefinitionView;

    open spec fn view(&self) -> StructureDefinitionView {
        StructureDefinitionView {
            default_encoding_id: self.default_encoding_id@,
            base_data_type: self.base_data_type@,
            structure_type: self.structure_type,
            fields: array_view(self.fields),
        }
    }
}

/// Wire form of a `StructureDefinition`: its fields in the order of their declaration.
pub open spec fn structure_definition_encoding(v: StructureDefinitionView) -> Seq<u8> {
    NodeId::encoding(v.default_encoding_id) + NodeId::encoding(v.base_data_type)
        + StructureType::encoding(v.structure_type) + array_encoding::<StructureField>(v.fields)
}

/// A `StructureDefinition` off the front of `s`: its fields, one behind the other.
#[verifier::opaque]
pub open spec fn structure_definition_decoding(s: Seq<u8>, limits: DecodingLimits) -> Result<
    (StructureDefinitionView, Seq<u8>),
    StatusCode,
> {
    match NodeId::decoding(s, limits) {
        Err(e) => Err(e),
        Ok((default_encoding_id, s)) =>
            match NodeId::decoding(s, limits) {
                Err(e) => Err(e),
                Ok((base_data_type, s)) =>
                    match StructureType::decoding(s, limits) {
                        Err(e) => Err(e),
                        Ok((structure_type, s)) =>
                            match array_decoding::<StructureField>(s, limits) {
                                Err(e) => Err(e),
                                Ok((fields, s)) =>
                                    Ok((
                                        StructureDefinitionView {
                                            default_encoding_id,
                                            base_data_type,
                                            structure_type,
                                            fields,
                                        },
                                        s,
                                    )),
                            },
                    },
            },
    }
}

impl BinaryEncoder for StructureDefinition {
    open spec fn encoding(v: StructureDefinitionView) -> Seq<u8> {
        structure_definition_encoding(v)
    }

    open spec fn encodable(v: StructureDefinitionView) -> bool {
        &&& NodeId::encodable(v.default_encoding_id)
        &&& NodeId::encodable(v.base_data_type)
        &&& StructureType::encodable(v.structure_type)
        &&& array_encodable::<StructureField>(v.fields)
    }

    open spec fn within(v: StructureDefinitionView, limits: DecodingLimits) -> bool {
        &&& NodeId::within(v.default_encoding_id, limits)
        &&& NodeId::within(v.base_data_type, limits)
        &&& StructureType::within(v.structure_type, limits)
        &&& array_within::<StructureField>(v.fields, limits)
    }

    open spec fn decoding(s: Seq<u8>, limits: DecodingLimits) -> Result<
        (StructureDefinitionView, Seq<u8>),
        StatusCode,
    > {
        structure_definition_decoding(s, limits)
    }

    proof fn lemma_round_trip(v: StructureDefinitionView, rest: Seq<u8>, limits: DecodingLimits) {
        reveal(structure_definition_decoding);
        let p0 = NodeId::encoding(v.default_encoding_id);
        let p1 = NodeId::encoding(v.base_data_type);
        let p2 = StructureType::encoding(v.structure_type);
        let p3 = array_encoding::<StructureField>(v.fields);
        let r3 = p3 + rest;
        let r2 = p2 + r3;
        let r1 = p1 + r2;
        lemma_concat_assoc(p0 + p1 + p2, p3, rest);
        lemma_concat_assoc(p0 + p1, p2, r3);
        lemma_concat_assoc(p0, p1, r2);
        NodeId::lemma_round_trip(v.default_encoding_id, r1, limits);
        NodeId::lemma_round_trip(v.base_data_type, r2, limits);
        StructureType::lemma_round_trip(v.structure_type, r3, limits);
        lemma_array_round_trip::<StructureField>(v.fields, rest, limits);
    }

    fn byte_len(&self) -> (r: usize) {
        let ghost v = self@;
        let ghost e0 = NodeId::encoding(v.default_encoding_id);
        let ghost e1 = e0 + NodeId::encoding(v.base_data_type);
        let ghost e2 = e1 + StructureType::encoding(v.structure_type);
        let ghost e3 = e2 + array_encoding::<StructureField>(v.fields);
        let mut size: usize = self.default_encoding_id.byte_len();
        size = add_part_len(
            size,
            self.base_data_type.byte_len(),
            Ghost(e0),
            Ghost(NodeId::encoding(v.base_data_type)),
        );
        size = add_part_len(
            size,
            self.structure_type.byte_len(),
            Ghost(e1),
            Ghost(StructureType::encoding(v.structure_type)),
        );
        size = add_part_len(
            size,
            byte_len_array(&self.fields),
            Ghost(e2),
            Ghost(array_encoding::<StructureField>(v.fields)),
        );
        size
    }

    fn encode(&self, stream: &mut Vec<u8>) -> (r: EncodingResult<usize>) {
        let start = stream.len();
        let ghost o = stream@;
        let ghost v = self@;
        proof {
            lemma_extends_refl(o);
        }
        write_part(stream, &self.default_encoding_id, Ghost(o))?;
        write_part(stream, &self.base_data_type, Ghost(o))?;
        write_part(stream, &self.structure_type, Ghost(o))?;
        write_array_part(stream, &self.fields, Ghost(o))?;
        proof {
            let p0 = NodeId::encoding(v.default_encoding_id);
            let p1 = NodeId::encoding(v.base_data_type);
            let p2 = StructureType::encoding(v.structure_type);
            let p3 = array_encoding::<StructureField>(v.fields);
            lemma_concat_assoc(o, p0, p1);
            lemma_concat_assoc(o, p0 + p1, p2);
            lemma_concat_assoc(o, p0 + p1 + p2, p3);
        }
        Ok(stream.len() - start)
    }

    fn decode(stream: &mut ReadStream, limits: &DecodingLimits) -> (r: EncodingResult<Self>) {
        proof {
            reveal(structure_definition_decoding);
        }
        let default_encoding_id = NodeId::decode(stream, limits)?;
        let base_data_type = NodeId::decode(stream, limits)?;
        let structure_type = StructureType::decode(stream, limits)?;
        let fields: Option<Vec<StructureField>> = read_array(stream, limits)?;
        Ok(StructureDefinition { default_encoding_id, base_data_type, structure_type, fields })
    }
}

} // verus!
