//! A property: a name and a value.

use vstd::prelude::*;
use crate::encoding::{
    BinaryEncoder, DecodingLimits, EncodingResult, ReadStream, add_part_len, lemma_concat_assoc,
    lemma_extends_refl, write_part,
};
use crate::qualified_name::{QualifiedName, QualifiedNameView};
use crate::status_codes::StatusCode;
use crate::variant::{Variant, VariantView};

verus! {

/// A value under a qualified name.
#[derive(Clone, Debug, PartialEq, Eq)]
pub struct KeyValuePair {
    /// The name.
    pub key: QualifiedName,
    /// The value.
    pub value: Variant,
}

/// The value of a `KeyValuePair`.
pub struct KeyValuePairView {
    pub key: QualifiedNameView,
    pub value: VariantView,
}

impl View for KeyValuePair {
    type V = KeyValuePairView;

    open spec fn view(&self) -> KeyValuePairView {
        KeyValuePairView {
            key: self.key@,
            value: self.value@,
        }
    }
}

/// Wire form of a `KeyValuePair`: its fields in the order of their declaration.
pub open spec fn key_value_pair_encoding(v: KeyValuePairView) -> Seq<u8> {
    QualifiedName::encoding(v.key) + Variant::encoding(v.value)
}

/// A `KeyValuePair` off the front of `s`: its fields, one behind the other.
#[verifier::opaque]
pub open spec fn key_value_pair_decoding(s: Seq<u8>, limits: DecodingLimits) -> Result<
    (KeyValuePairView, Seq<u8>),
    StatusCode,
> {
    match QualifiedName::decoding(s, limits) {
        Err(e) => Err(e),
        Ok((key, s)) =>
            match Variant::decoding(s, limits) {
                Err(e) => Err(e),
                Ok((value, s)) =>
                    Ok((KeyValuePairView { key, value }, s)),
            },
    }
}

impl BinaryEncoder for KeyValuePair {
    open spec fn encoding(v: KeyValuePairView) -> Seq<u8> {
        key_value_pair_encoding(v)
    }

    open spec fn encodable(v: KeyValuePairView) -> bool {
        &&& QualifiedName::encodable(v.key)
        &&& Variant::encodable(v.value)
    }

    open spec fn within(v: KeyValuePairView, limits: DecodingLimits) -> bool {
        &&& QualifiedName::within(v.key, limits)
        &&& Variant::within(v.value, limits)
    }

    open spec fn decoding(s: Seq<u8>, limits: DecodingLimits) -> Result<
        (KeyValuePairView, Seq<u8>),
        StatusCode,
    > {
        key_value_pair_decoding(s, limits)
    }

    proof fn lemma_round_trip(v: KeyValuePairView, rest: Seq<u8>, limits: DecodingLimits) {
        reveal(key_value_pair_decoding);
        let p0 = QualifiedName::encoding(v.key);
        let p1 = Variant::encoding(v.value);
        let r1 = p1 + rest;
        lemma_concat_assoc(p0, p1, rest);
        QualifiedName::lemma_round_trip(v.key, r1, limits);
        Variant::lemma_round_trip(v.value, rest, limits);
    }

    fn byte_len(&self) -> (r: usize) {
        let ghost v = self@;
        let ghost e0 = QualifiedName::encoding(v.key);
        let ghost e1 = e0 + Variant::encoding(v.value);
        let mut size: usize = self.key.byte_len();
        size = add_part_len(
            size,
            self.value.byte_len(),
            Ghost(e0),
            Ghost(Variant::encoding(v.value)),
        );
        size
    }

    fn encode(&self, stream: &mut Vec<u8>) -> (r: EncodingResult<usize>) {
        let start = stream.len();
        let ghost o = stream@;
        let ghost v = self@;
        proof {
            lemma_extends_refl(o);
        }
        write_part(stream, &self.key, Ghost(o))?;
        write_part(stream, &self.value, Ghost(o))?;
        proof {
            let p0 = QualifiedName::encoding(v.key);
            let p1 = Variant::encoding(v.value);
            lemma_concat_assoc(o, p0, p1);
        }
        Ok(stream.len() - start)
    }

    fn decode(stream: &mut ReadStream, limits: &DecodingLimits) -> (r: EncodingResult<Self>) {
        proof {
            reveal(key_value_pair_decoding);
        }
        let key = QualifiedName::decode(stream, limits)?;
        let value = Variant::decode(stream, limits)?;
        Ok(KeyValuePair { key, value })
    }
}

} // verus!
