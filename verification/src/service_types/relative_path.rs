//! Relative paths: the references to follow from a node to another.

use vstd::prelude::*;
use crate::encoding::{
    BinaryEncoder, DecodingLimits, EncodingResult, ReadStream, add_part_len, array_decoding,
    array_encodable, array_encoding, array_view, array_within, byte_len_array,
    lemma_array_round_trip, lemma_concat_assoc, lemma_extends_refl, read_array, write_array_part,
    write_part,
};
use crate::node_id::{NodeId, NodeIdView};
use crate::qualified_name::{QualifiedName, QualifiedNameView};
use crate::status_codes::StatusCode;

verus! {

/// One step of a relative path.
#[derive(Clone, Debug, PartialEq, Eq)]
pub struct RelativePathElement {
    /// The type of reference to follow.
    pub reference_type_id: NodeId,
    /// Whether the reference is followed against its direction.
    pub is_inverse: bool,
    /// Whether subtypes of the reference type are followed too.
    pub include_subtypes: bool,
    /// The browse name of the node at the end of the reference.
    pub target_name: QualifiedName,
}

/// The value of a `RelativePathElement`.
pub struct RelativePathElementView {
    pub reference_type_id: NodeIdView,
    pub is_inverse: bool,
    pub include_subtypes: bool,
    pub target_name: QualifiedNameView,
}

impl View for RelativePathElement {
    type V = RelativePathElementView;

    open spec fn view(&self) -> RelativePathElementView {
        RelativePathElementView {
            reference_type_id: self.reference_type_id@,
            is_inverse: self.is_inverse,
            include_subtypes: self.include_subtypes,
            target_name: self.target_name@,
        }
    }
}

/// Wire form of a `RelativePathElement`: its fields in the order of their declaration.
pub open spec fn relative_path_element_encoding(v: RelativePathElementView) -> Seq<u8> {
    NodeId::encoding(v.reference_type_id) + bool::encoding(v.is_inverse)
        + bool::encoding(v.include_subtypes) + QualifiedName::encoding(v.target_name)
}

/// A `RelativePathElement` off the front of `s`: its fields, one behind the other.
#[verifier::opaque]
pub open spec fn relative_path_element_decoding(s: Seq<u8>, limits: DecodingLimits) -> Result<
    (RelativePathElementView, Seq<u8>),
    StatusCode,
> {
    match NodeId::decoding(s, limits) {
        Err(e) => Err(e),
        Ok((reference_type_id, s)) =>
            match bool::decoding(s, limits) {
                Err(e) => Err(e),
                Ok((is_inverse, s)) =>
                    match bool::decoding(s, limits) {
                        Err(e) => Err(e),
                        Ok((include_subtypes, s)) =>
                            match QualifiedName::decoding(s, limits) {
                                Err(e) => Err(e),
                                Ok((target_name, s)) =>
                                    Ok((
                                        RelativePathElementView {
                                            reference_type_id,
                                            is_inverse,
                                            include_subtypes,
                                            target_name,
                                        },
                                        s,
                                    )),
                            },
                    },
            },
    }
}

impl BinaryEncoder for RelativePathElement {
    open spec fn encoding(v: RelativePathElementView) -> Seq<u8> {
        relative_path_element_encoding(v)
    }

    open spec fn encodable(v: RelativePathElementView) -> bool {
        &&& NodeId::encodable(v.reference_type_id)
        &&& QualifiedName::encodable(v.target_name)
    }

    open spec fn within(v: RelativePathElementView, limits: DecodingLimits) -> bool {
        &&& NodeId::within(v.reference_type_id, limits)
        &&& QualifiedName::within(v.target_name, limits)
    }

    open spec fn decoding(s: Seq<u8>, limits: DecodingLimits) -> Result<
        (RelativePathElementView, Seq<u8>),
        StatusCode,
    > {
        relative_path_element_decoding(s, limits)
    }

    proof fn lemma_round_trip(v: RelativePathElementView, rest: Seq<u8>, limits: DecodingLimits) {
        reveal(relative_path_element_decoding);
        let p0 = NodeId::encoding(v.reference_type_id);
        let p1 = bool::encoding(v.is_inverse);
        let p2 = bool::encoding(v.include_subtypes);
        let p3 = QualifiedName::encoding(v.target_name);
        let r3 = p3 + rest;
        let r2 = p2 + r3;
        let r1 = p1 + r2;
        lemma_concat_assoc(p0 + p1 + p2, p3, rest);
        lemma_concat_assoc(p0 + p1, p2, r3);
        lemma_concat_assoc(p0, p1, r2);
        NodeId::lemma_round_trip(v.reference_type_id, r1, limits);
        bool::lemma_round_trip(v.is_inverse, r2, limits);
        bool::lemma_round_trip(v.include_subtypes, r3, limits);
        QualifiedName::lemma_round_trip(v.target_name, rest, limits);
    }

    fn byte_len(&self) -> (r: usize) {
        let ghost v = self@;
        let ghost e0 = NodeId::encoding(v.reference_type_id);
        let ghost e1 = e0 + bool::encoding(v.is_inverse);
        let ghost e2 = e1 + bool::encoding(v.include_subtypes);
        let ghost e3 = e2 + QualifiedName::encoding(v.target_name);
        let mut size: usize = self.reference_type_id.byte_len();
        size = add_part_len(
            size,
            self.is_inverse.byte_len(),
            Ghost(e0),
            Ghost(bool::encoding(v.is_inverse)),
        );
        size = add_part_len(
            size,
            self.include_subtypes.byte_len(),
            Ghost(e1),
            Ghost(bool::encoding(v.include_subtypes)),
        );
        size = add_part_len(
            size,
            self.target_name.byte_len(),
            Ghost(e2),
            Ghost(QualifiedName::encoding(v.target_name)),
        );
        size
    }

    fn encode(&self, stream: &mut Vec<u8>) -> (r: EncodingResult<usize>) {
        let start = stream.len();
        let ghost o = stream@;
        let ghost v = self@;
        proof {
            lemma_extends_refl(o);
        }
        write_part(stream, &self.reference_type_id, Ghost(o))?;
        write_part(stream, &self.is_inverse, Ghost(o))?;
        write_part(stream, &self.include_subtypes, Ghost(o))?;
        write_part(stream, &self.target_name, Ghost(o))?;
        proof {
            let p0 = NodeId::encoding(v.reference_type_id);
            let p1 = bool::encoding(v.is_inverse);
            let p2 = bool::encoding(v.include_subtypes);
            let p3 = QualifiedName::encoding(v.target_name);
            lemma_concat_assoc(o, p0, p1);
            lemma_concat_assoc(o, p0 + p1, p2);
            lemma_concat_assoc(o, p0 + p1 + p2, p3);
        }
        Ok(stream.len() - start)
    }

    fn decode(stream: &mut ReadStream, limits: &DecodingLimits) -> (r: EncodingResult<Self>) {
        proof {
            reveal(relative_path_element_decoding);
        }
        let reference_type_id = NodeId::decode(stream, limits)?;
        let is_inverse = bool::decode(stream, limits)?;
        let include_subtypes = bool::decode(stream, limits)?;
        let target_name = QualifiedName::decode(stream, limits)?;
        Ok(RelativePathElement { reference_type_id, is_inverse, include_subtypes, target_name })
    }
}

/// A path of references from a node to another.
#[derive(Clone, Debug, PartialEq, Eq)]
pub struct RelativePath {
    /// The steps of the path, in the order in which they are taken.
    pub elements: Option<Vec<RelativePathElement>>,
}

/// The value of a `RelativePath`.
pub struct RelativePathView {
    pub elements: Option<Seq<RelativePathElementView>>,
}

impl View for RelativePath {
    type V = RelativePathView;

    open spec fn view(&self) -> RelativePathView {
        RelativePathView {
            elements: array_view(self.elements),
        }
    }
}

/// Wire form of a `RelativePath`: its fields in the order of their declaration.
pub open spec fn relative_path_encoding(v: RelativePathView) -> Seq<u8> {
    array_encoding::<RelativePathElement>(v.elements)
}

/// A `RelativePath` off the front of `s`: its fields, one behind the other.
#[verifier::opaque]
pub open spec fn relative_path_decoding(s: Seq<u8>, limits: DecodingLimits) -> Result<
    (RelativePathView, Seq<u8>),
    StatusCode,
> {
    match array_decoding::<RelativePathElement>(s, limits) {
        Err(e) => Err(e),
        Ok((elements, s)) =>
            Ok((RelativePathView { elements }, s)),
    }
}

impl BinaryEncoder for RelativePath {
    open spec fn encoding(v: RelativePathView) -> Seq<u8> {
        relative_path_encoding(v)
    }

    open spec fn encodable(v: RelativePathView) -> bool {
        &&& array_encodable::<RelativePathElement>(v.elements)
    }

    open spec fn within(v: RelativePathView, limits: DecodingLimits) -> bool {
        &&& array_within::<RelativePathElement>(v.elements, limits)
    }

    open spec fn decoding(s: Seq<u8>, limits: DecodingLimits) -> Result<
        (RelativePathView, Seq<u8>),
        StatusCode,
    > {
        relative_path_decoding(s, limits)
    }

    proof fn lemma_round_trip(v: RelativePathView, rest: Seq<u8>, limits: DecodingLimits) {
        reveal(relative_path_decoding);
        let p0 = array_encoding::<RelativePathElement>(v.elements);
        lemma_array_round_trip::<RelativePathElement>(v.elements, rest, limits);
    }

    fn byte_len(&self) -> (r: usize) {
        byte_len_array(&self.elements)
    }

    fn encode(&self, stream: &mut Vec<u8>) -> (r: EncodingResult<usize>) {
        let start = stream.len();
        let ghost o = stream@;
        let ghost v = self@;
        proof {
            lemma_extends_refl(o);
        }
        write_array_part(stream, &self.elements, Ghost(o))?;
        Ok(stream.len() - start)
    }

    fn decode(stream: &mut ReadStream, limits: &DecodingLimits) -> (r: EncodingResult<Self>) {
        proof {
            reveal(relative_path_decoding);
        }
        let elements: Option<Vec<RelativePathElement>> = read_array(stream, limits)?;
        Ok(RelativePath { elements })
    }
}

} // verus!
