//! The definition of an enumeration.

use vstd::prelude::*;
use crate::encoding::{
    BinaryEncoder, DecodingLimits, EncodingResult, ReadStream, array_decoding, array_encodable,
    array_encoding, array_view, array_within, byte_len_array, lemma_array_round_trip,
    lemma_extends_refl, read_array, write_array_part,
};
use crate::service_types::enum_field::{EnumField, EnumFieldView};
use crate::status_codes::StatusCode;

verus! {

/// The values of an enumeration.
#[derive(Clone, Debug, PartialEq, Eq)]
pub struct EnumDefinition {
    /// The values.
    pub fields: Option<Vec<EnumField>>,
}

/// The value of a `EnumDefinition`.
pub struct EnumDefinitionView {
    pub fields: Option<Seq<EnumFieldView>>,
}

impl View for EnumDefinition {
    type V = EnumDefinitionView;

    open spec fn view(&self) -> EnumDefinitionView {
        EnumDefinitionView {
            fields: array_view(self.fields),
        }
    }
}

/// Wire form of a `EnumDefinition`: its fields in the order of their declaration.
pub open spec fn enum_definition_encoding(v: EnumDefinitionView) -> Seq<u8> {
    array_encoding::<EnumField>(v.fields)
}

/// A `EnumDefinition` off the front of `s`: its fields, one behind the other.
#[verifier::opaque]
pub open spec fn enum_definition_decoding(s: Seq<u8>, limits: DecodingLimits) -> Result<
    (EnumDefinitionView, Seq<u8>),
    StatusCode,
> {
    match array_decoding::<EnumField>(s, limits) {
        Err(e) => Err(e),
        Ok((fields, s)) =>
            Ok((EnumDefinitionView { fields }, s)),
    }
}

impl BinaryEncoder for EnumDefinition {
    open spec fn encoding(v: EnumDefinitionView) -> Seq<u8> {
        enum_definition_encoding(v)
    }

    open spec fn encodable(v: EnumDefinitionView) -> bool {
        &&& array_encodable::<EnumField>(v.fields)
    }

    open spec fn within(v: EnumDefinitionView, limits: DecodingLimits) -> bool {
        &&& array_within::<EnumField>(v.fields, limits)
    }

    open spec fn decoding(s: Seq<u8>, limits: DecodingLimits) -> Result<
        (EnumDefinitionView, Seq<u8>),
        StatusCode,
    > {
        enum_definition_decoding(s, limits)
    }

    proof fn lemma_round_trip(v: EnumDefinitionView, rest: Seq<u8>, limits: DecodingLimits) {
        reveal(enum_definition_decoding);
        let p0 = array_encoding::<EnumField>(v.fields);
        lemma_array_round_trip::<EnumField>(v.fields, rest, limits);
    }

    fn byte_len(&self) -> (r: usize) {
        byte_len_array(&self.fields)
    }

    fn encode(&self, stream: &mut Vec<u8>) -> (r: EncodingResult<usize>) {
        let start = stream.len();
        let ghost o = stream@;
        let ghost v = self@;
        proof {
            lemma_extends_refl(o);
        }
        write_array_part(stream, &self.fields, Ghost(o))?;
        Ok(stream.len() - start)
    }

    fn decode(stream: &mut ReadStream, limits: &DecodingLimits) -> (r: EncodingResult<Self>) {
        proof {
            reveal(enum_definition_decoding);
        }
        let fields: Option<Vec<EnumField>> = read_array(stream, limits)?;
        Ok(EnumDefinition { fields })
    }
}

} // verus!
