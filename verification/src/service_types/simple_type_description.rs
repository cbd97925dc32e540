//! The description of a simple data type.

use vstd::prelude::*;
use crate::encoding::{
    BinaryEncoder, DecodingLimits, EncodingResult, ReadStream, add_part_len, lemma_concat_assoc,
    lemma_extends_refl, write_part,
};
use crate::node_id::{NodeId, NodeIdView};
use crate::qualified_name::{QualifiedName, QualifiedNameView};
use crate::status_codes::StatusCode;

verus! {

/// Describes a data type that is a built-in type under another name.
#[derive(Clone, Debug, PartialEq, Eq)]
pub struct SimpleTypeDescription {
    /// The node of the data type.
    pub data_type_id: NodeId,
    /// The name of the data type.
    pub name: QualifiedName,
    /// The data type that this one is made from.
    pub base_data_type: NodeId,
    /// The built-in type that the values travel as.
    pub built_in_type: u8,
}

/// The value of a `SimpleTypeDescription`.
pub struct SimpleTypeDescriptionView {
    pub data_type_id: NodeIdView,
    pub name: QualifiedNameView,
    pub base_data_type: NodeIdView,
    pub built_in_type: u8,
}

impl View for SimpleTypeDescription {
    type V = SimpleTypeDescriptionView;

    open spec fn view(&self) -> SimpleTypeDescriptionView {
        SimpleTypeDescriptionView {
            data_type_id: self.data_type_id@,
            name: self.name@,
            base_data_type: self.base_data_type@,
            built_in_type: self.built_in_type,
        }
    }
}

/// Wire form of a `SimpleTypeDescription`: its fields in the order of their declaration.
pub open spec fn simple_type_description_encoding(v: SimpleTypeDescriptionView) -> Seq<u8> {
    NodeId::encoding(v.data_type_id) + QualifiedName::encoding(v.name)
        + NodeId::encoding(v.base_data_type) + u8::encoding(v.built_in_type)
}

/// A `SimpleTypeDescription` off the front of `s`: its fields, one behind the other.
#[verifier::opaque]
pub open spec fn simple_type_description_decoding(s: Seq<u8>, limits: DecodingLimits) -> Result<
    (SimpleTypeDescriptionView, Seq<u8>),
    StatusCode,
> {
    match NodeId::decoding(s, limits) {
        Err(e) => Err(e),
        Ok((data_type_id, s)) =>
            match QualifiedName::decoding(s, limits) {
                Err(e) => Err(e),
                Ok((name, s)) =>
                    match NodeId::decoding(s, limits) {
                        Err(e) => Err(e),
                        Ok((base_data_type, s)) =>
                            match u8::decoding(s, limits) {
                                Err(e) => Err(e),
                                Ok((built_in_type, s)) =>
                                    Ok((
                                        SimpleTypeDescriptionView {
                                            data_type_id,
                                            name,
                                            base_data_type,
                                            built_in_type,
                                        },
                                        s,
                                    )),
                            },
                    },
            },
    }
}

impl BinaryEncoder for SimpleTypeDescription {
    open spec fn encoding(v: SimpleTypeDescriptionView) -> Seq<u8> {
        simple_type_description_encoding(v)
    }

    open spec fn encodable(v: SimpleTypeDescriptionView) -> bool {
        &&& NodeId::encodable(v.data_type_id)
        &&& QualifiedName::encodable(v.name)
        &&& NodeId::encodable(v.base_data_type)
    }

    open spec fn within(v: SimpleTypeDescriptionView, limits: DecodingLimits) -> bool {
        &&& NodeId::within(v.data_type_id, limits)
        &&& QualifiedName::within(v.name, limits)
        &&& NodeId::within(v.base_data_type, limits)
    }

    open spec fn decoding(s: Seq<u8>, limits: DecodingLimits) -> Result<
        (SimpleTypeDescriptionView, Seq<u8>),
        StatusCode,
    > {
        simple_type_description_decoding(s, limits)
    }

    proof fn lemma_round_trip(v: SimpleTypeDescriptionView, rest: Seq<u8>, limits: DecodingLimits) {
        reveal(simple_type_description_decoding);
        let p0 = NodeId::encoding(v.data_type_id);
        let p1 = QualifiedName::encoding(v.name);
        let p2 = NodeId::encoding(v.base_data_type);
        let p3 = u8::encoding(v.built_in_type);
        let r3 = p3 + rest;
        let r2 = p2 + r3;
        let r1 = p1 + r2;
        lemma_concat_assoc(p0 + p1 + p2, p3, rest);
        lemma_concat_assoc(p0 + p1, p2, r3);
        lemma_concat_assoc(p0, p1, r2);
        NodeId::lemma_round_trip(v.data_type_id, r1, limits);
        QualifiedName::lemma_round_trip(v.name, r2, limits);
        NodeId::lemma_round_trip(v.base_data_type, r3, limits);
        u8::lemma_round_trip(v.built_in_type, rest, limits);
    }

    fn byte_len(&self) -> (r: usize) {
        let ghost v = self@;
        let ghost e0 = NodeId::encoding(v.data_type_id);
        let ghost e1 = e0 + QualifiedName::encoding(v.name);
        let ghost e2 = e1 + NodeId::encoding(v.base_data_type);
        let ghost e3 = e2 + u8::encoding(v.built_in_type);
        let mut size: usize = self.data_type_id.byte_len();
        size = add_part_len(
            size,
            self.name.byte_len(),
            Ghost(e0),
            Ghost(QualifiedName::encoding(v.name)),
        );
        size = add_part_len(
            size,
            self.base_data_type.byte_len(),
            Ghost(e1),
            Ghost(NodeId::encoding(v.base_data_type)),
        );
        size = add_part_len(
            size,
            self.built_in_type.byte_len(),
            Ghost(e2),
            Ghost(u8::encoding(v.built_in_type)),
        );
        size
    }

    fn encode(&self, stream: &mut Vec<u8>) -> (r: EncodingResult<usize>) {
        let start = stream.len();
        let ghost o = stream@;
        let ghost v = self@;
        proof {
            lemma_extends_refl(o);
        }
        write_part(stream, &self.data_type_id, Ghost(o))?;
        write_part(stream, &self.name, Ghost(o))?;
        write_part(stream, &self.base_data_type, Ghost(o))?;
        write_part(stream, &self.built_in_type, Ghost(o))?;
        proof {
            let p0 = NodeId::encoding(v.data_type_id);
            let p1 = QualifiedName::encoding(v.name);
            let p2 = NodeId::encoding(v.base_data_type);
            let p3 = u8::encoding(v.built_in_type);
            lemma_concat_assoc(o, p0, p1);
            lemma_concat_assoc(o, p0 + p1, p2);
            lemma_concat_assoc(o, p0 + p1 + p2, p3);
        }
        Ok(stream.len() - start)
    }

    fn decode(stream: &mut ReadStream, limits: &DecodingLimits) -> (r: EncodingResult<Self>) {
        proof {
            reveal(simple_type_description_decoding);
        }
        let data_type_id = NodeId::decode(stream, limits)?;
        let name = QualifiedName::decode(stream, limits)?;
        let base_data_type = NodeId::decode(stream, limits)?;
        let built_in_type = u8::decode(stream, limits)?;
        Ok(SimpleTypeDescription { data_type_id, name, base_data_type, built_in_type })
    }
}

} // verus!
