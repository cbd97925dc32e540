//! The description of an enumeration data type.

use vstd::prelude::*;
use crate::encoding::{
    BinaryEncoder, DecodingLimits, EncodingResult, ReadStream, add_part_len, lemma_concat_assoc,
    lemma_extends_refl, write_part,
};
use crate::node_id::{NodeId, NodeIdView};
use crate::qualified_name::{QualifiedName, QualifiedNameView};
use crate::service_types::enum_definition::{EnumDefinition, EnumDefinitionView};
use crate::status_codes::StatusCode;

verus! {

/// Describes an enumeration data type.
#[derive(Clone, Debug, PartialEq, Eq)]
pub struct EnumDescription {
    /// The node of the data type.
    pub data_type_id: NodeId,
    /// The name of the data type.
    pub name: QualifiedName,
    /// The values of the enumeration.
    pub enum_definition: EnumDefinition,
    /// The built-in type that the values travel as.
    pub built_in_type: u8,
}

/// The value of a `EnumDescription`.
pub struct EnumDescriptionView {
    pub data_type_id: NodeIdView,
    pub name: QualifiedNameView,
    pub enum_definition: EnumDefinitionView,
    pub built_in_type: u8,
}

impl View for EnumDescription {
    type V = EnumDescriptionView;

    open spec fn view(&self) -> EnumDescriptionView {
        EnumDescriptionView {
            data_type_id: self.data_type_id@,
            name: self.name@,
            enum_definition: self.enum_definition@,
            built_in_type: self.built_in_type,
        }
    }
}

/// Wire form of a `EnumDescription`: its fields in the order of their declaration.
pub open spec fn enum_description_encoding(v: EnumDescriptionView) -> Seq<u8> {
    NodeId::encoding(v.data_type_id) + QualifiedName::encoding(v.name)
        + EnumDefinition::encoding(v.enum_definition) + u8::encoding(v.built_in_type)
}

/// A `EnumDescription` off the front of `s`: its fields, one behind the other.
#[verifier::opaque]
pub open spec fn enum_description_decoding(s: Seq<u8>, limits: DecodingLimits) -> Result<
    (EnumDescriptionView, Seq<u8>),
    StatusCode,
> {
    match NodeId::decoding(s, limits) {
        Err(e) => Err(e),
        Ok((data_type_id, s)) =>
            match QualifiedName::decoding(s, limits) {
                Err(e) => Err(e),
                Ok((name, s)) =>
                    match EnumDefinition::decoding(s, limits) {
                        Err(e) => Err(e),
                        Ok((enum_definition, s)) =>
                            match u8::decoding(s, limits) {
                                Err(e) => Err(e),
                                Ok((built_in_type, s)) =>
                                    Ok((
                                        EnumDescriptionView {
                                            data_type_id,
                                            name,
                                            enum_definition,
                                            built_in_type,
                                        },
                                        s,
                                    )),
                            },
                    },
            },
    }
}

impl BinaryEncoder for EnumDescription {
    open spec fn encoding(v: EnumDescriptionView) -> Seq<u8> {
        enum_description_encoding(v)
    }

    open spec fn encodable(v: EnumDescriptionView) -> bool {
        &&& NodeId::encodable(v.data_type_id)
        &&& QualifiedName::encodable(v.name)
        &&& EnumDefinition::encodable(v.enum_definition)
    }

    open spec fn within(v: EnumDescriptionView, limits: DecodingLimits) -> bool {
        &&& NodeId::within(v.data_type_id, limits)
        &&& QualifiedName::within(v.name, limits)
        &&& EnumDefinition::within(v.enum_definition, limits)
    }

    open spec fn decoding(s: Seq<u8>, limits: DecodingLimits) -> Result<
        (EnumDescriptionView, Seq<u8>),
        StatusCode,
    > {
        enum_description_decoding(s, limits)
    }

    proof fn lemma_round_trip(v: EnumDescriptionView, rest: Seq<u8>, limits: DecodingLimits) {
        reveal(enum_description_decoding);
        let p0 = NodeId::encoding(v.data_type_id);
        let p1 = QualifiedName::encoding(v.name);
        let p2 = EnumDefinition::encoding(v.enum_definition);
        let p3 = u8::encoding(v.built_in_type);
        let r3 = p3 + rest;
        let r2 = p2 + r3;
        let r1 = p1 + r2;
        lemma_concat_assoc(p0 + p1 + p2, p3, rest);
        lemma_concat_assoc(p0 + p1, p2, r3);
        lemma_concat_assoc(p0, p1, r2);
        NodeId::lemma_round_trip(v.data_type_id, r1, limits);
        QualifiedName::lemma_round_trip(v.name, r2, limits);
        EnumDefinition::lemma_round_trip(v.enum_definition, r3, limits);
        u8::lemma_round_trip(v.built_in_type, rest, limits);
    }

    fn byte_len(&self) -> (r: usize) {
        let ghost v = self@;
        let ghost e0 = NodeId::encoding(v.data_type_id);
        let ghost e1 = e0 + QualifiedName::encoding(v.name);
        let ghost e2 = e1 + EnumDefinition::encoding(v.enum_definition);
        let ghost e3 = e2 + u8::encoding(v.built_in_type);
        let mut size: usize = self.data_type_id.byte_len();
        size = add_part_len(
            size,
            self.name.byte_len(),
            Ghost(e0),
            Ghost(QualifiedName::encoding(v.name)),
        );
        size = add_part_len(
            size,
            self.enum_definition.byte_len(),
            Ghost(e1),
            Ghost(EnumDefinition::encoding(v.enum_definition)),
        );
        size = add_part_len(
            size,
            self.built_in_type.byte_len(),
            Ghost(e2),
            Ghost(u8::encoding(v.built_in_type)),
        );
        size
    }

    fn encode(&self, stream: &mut Vec<u8>) -> (r: EncodingResult<usize>) {
        let start = stream.len();
        let ghost o = stream@;
        let ghost v = self@;
        proof {
            lemma_extends_refl(o);
        }
        write_part(stream, &self.data_type_id, Ghost(o))?;
        write_part(stream, &self.name, Ghost(o))?;
        write_part(stream, &self.enum_definition, Ghost(o))?;
        write_part(stream, &self.built_in_type, Ghost(o))?;
        proof {
            let p0 = NodeId::encoding(v.data_type_id);
            let p1 = QualifiedName::encoding(v.name);
            let p2 = EnumDefinition::encoding(v.enum_definition);
            let p3 = u8::encoding(v.built_in_type);
            lemma_concat_assoc(o, p0, p1);
            lemma_concat_assoc(o, p0 + p1, p2);
            lemma_concat_assoc(o, p0 + p1 + p2, p3);
        }
        Ok(stream.len() - start)
    }

    fn decode(stream: &mut ReadStream, limits: &DecodingLimits) -> (r: EncodingResult<Self>) {
        proof {
            reveal(enum_description_decoding);
        }
        let data_type_id = NodeId::decode(stream, limits)?;
        let name = QualifiedName::decode(stream, limits)?;
        let enum_definition = EnumDefinition::decode(stream, limits)?;
        let built_in_type = u8::decode(stream, limits)?;
        Ok(EnumDescription { data_type_id, name, enum_definition, built_in_type })
    }
}

} // verus!
