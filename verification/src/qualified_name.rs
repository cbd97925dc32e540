//! Qualified names: a name within a namespace.

use vstd::prelude::*;
use crate::encoding::{
    BinaryEncoder, DecodingLimits, EncodingResult, ReadStream, add_part_len, lemma_concat_assoc,
    lemma_extends_refl, write_part,
};
use crate::status_codes::StatusCode;
use crate::string::UAString;

verus! {

/// A name qualified by the index of the namespace that defines it.
#[derive(Debug, PartialEq, Eq)]
pub struct QualifiedName {
    /// Index of the namespace that defines the name.
    pub namespace_index: u16,
    /// The name.
    pub name: UAString,
}

/// The value of a `QualifiedName`.
pub struct QualifiedNameView {
    pub namespace_index: u16,
    pub name: Option<Seq<char>>,
}

impl View for QualifiedName {
    type V = QualifiedNameView;

    open spec fn view(&self) -> QualifiedNameView {
        QualifiedNameView {
            namespace_index: self.namespace_index,
            name: self.name@,
        }
    }
}

impl Clone for QualifiedName {
    fn clone(&self) -> (r: Self)
        ensures
            r@ == self@,
    {
        QualifiedName { namespace_index: self.namespace_index, name: self.name.clone() }
    }
}
impl QualifiedName {
    pub fn new(namespace_index: u16, name: &str) -> (r: QualifiedName)
        ensures
            r@.namespace_index == namespace_index,
            r@.name == Some(name@),
    {
        QualifiedName { namespace_index, name: UAString::from_str(name) }
    }

    /// The name without a namespace and without text.
    pub fn null() -> (r: QualifiedName)
        ensures
            r@.namespace_index == 0,
            r@.name is None,
    {
        QualifiedName { namespace_index: 0, name: UAString::null() }
    }

    pub fn is_null(&self) -> (r: bool)
        ensures
            r == (self@.namespace_index == 0 && self@.name is None),
    {
        self.namespace_index == 0 && self.name.is_null()
    }
}

/// Wire form of a `QualifiedName`: its fields in the order of their declaration.
pub open spec fn qualified_name_encoding(v: QualifiedNameView) -> Seq<u8> {
    u16::encoding(v.namespace_index) + UAString::encoding(v.name)
}

/// A `QualifiedName` off the front of `s`: its fields, one behind the other.
#[verifier::opaque]
pub open spec fn qualified_name_decoding(s: Seq<u8>, limits: DecodingLimits) -> Result<
    (QualifiedNameView, Seq<u8>),
    StatusCode,
> {
    match u16::decoding(s, limits) {
        Err(e) => Err(e),
        Ok((namespace_index, s)) =>
            match UAString::decoding(s, limits) {
                Err(e) => Err(e),
                Ok((name, s)) =>
                    Ok((QualifiedNameView { namespace_index, name }, s)),
            },
    }
}

impl BinaryEncoder for QualifiedName {
    open spec fn encoding(v: QualifiedNameView) -> Seq<u8> {
        qualified_name_encoding(v)
    }

    open spec fn encodable(v: QualifiedNameView) -> bool {
        &&& UAString::encodable(v.name)
    }

    open spec fn within(v: QualifiedNameView, limits: DecodingLimits) -> bool {
        &&& UAString::within(v.name, limits)
    }

    open spec fn decoding(s: Seq<u8>, limits: DecodingLimits) -> Result<
        (QualifiedNameView, Seq<u8>),
        StatusCode,
    > {
        qualified_name_decoding(s, limits)
    }

    proof fn lemma_round_trip(v: QualifiedNameView, rest: Seq<u8>, limits: DecodingLimits) {
        reveal(qualified_name_decoding);
        let p0 = u16::encoding(v.namespace_index);
        let p1 = UAString::encoding(v.name);
        let r1 = p1 + rest;
        lemma_concat_assoc(p0, p1, rest);
        u16::lemma_round_trip(v.namespace_index, r1, limits);
        UAString::lemma_round_trip(v.name, rest, limits);
    }

    fn byte_len(&self) -> (r: usize) {
        let ghost v = self@;
        let ghost e0 = u16::encoding(v.namespace_index);
        let ghost e1 = e0 + UAString::encoding(v.name);
        let mut size: usize = self.namespace_index.byte_len();
        size = add_part_len(
            size,
            self.name.byte_len(),
            Ghost(e0),
            Ghost(UAString::encoding(v.name)),
        );
        size
    }

    fn encode(&self, stream: &mut Vec<u8>) -> (r: EncodingResult<usize>) {
        let start = stream.len();
        let ghost o = stream@;
        let ghost v = self@;
        proof {
            lemma_extends_refl(o);
        }
        write_part(stream, &self.namespace_index, Ghost(o))?;
        write_part(stream, &self.name, Ghost(o))?;
        proof {
            let p0 = u16::encoding(v.namespace_index);
            let p1 = UAString::encoding(v.name);
            lemma_concat_assoc(o, p0, p1);
        }
        Ok(stream.len() - start)
    }

    fn decode(stream: &mut ReadStream, limits: &DecodingLimits) -> (r: EncodingResult<Self>) {
        proof {
            reveal(qualified_name_decoding);
        }
        let namespace_index = u16::decode(stream, limits)?;
        let name = UAString::decode(stream, limits)?;
        Ok(QualifiedName { namespace_index, name })
    }
}

} // verus!
