//! A value of an enumeration.

use vstd::prelude::*;
use crate::encoding::{
    BinaryEncoder, DecodingLimits, EncodingResult, ReadStream, add_part_len, lemma_concat_assoc,
    lemma_extends_refl, write_part,
};
use crate::localized_text::{LocalizedText, LocalizedTextView};
use crate::status_codes::StatusCode;
use crate::string::UAString;

verus! {

/// Describes one value of an enumeration.
#[derive(Clone, Debug, PartialEq, Eq)]
pub struct EnumField {
    /// The number of the value.
    pub value: i64,
    /// A name of the value for people.
    pub display_name: LocalizedText,
    /// What the value means.
    pub description: LocalizedText,
    /// The name of the value.
    pub name: UAString,
}

/// The value of a `EnumField`.
pub struct EnumFieldView {
    pub value: i64,
    pub display_name: LocalizedTextView,
    pub description: LocalizedTextView,
    pub name: Option<Seq<char>>,
}

impl View for EnumField {
    type V = EnumFieldView;

    open spec fn view(&self) -> EnumFieldView {
        EnumFieldView {
            value: self.value,
            display_name: self.display_name@,
            description: self.description@,
            name: self.name@,
        }
    }
}

/// Wire form of a `EnumField`: its fields in the order of their declaration.
pub open spec fn enum_field_encoding(v: EnumFieldView) -> Seq<u8> {
    i64::encoding(v.value) + LocalizedText::encoding(v.display_name)
        + LocalizedText::encoding(v.description) + UAString::encoding(v.name)
}

/// A `EnumField` off the front of `s`: its fields, one behind the other.
#[verifier::opaque]
pub open spec fn enum_field_decoding(s: Seq<u8>, limits: DecodingLimits) -> Result<
    (EnumFieldView, Seq<u8>),
    StatusCode,
> {
    match i64::decoding(s, limits) {
        Err(e) => Err(e),
        Ok((value, s)) =>
            match LocalizedText::decoding(s, limits) {
                Err(e) => Err(e),
                Ok((display_name, s)) =>
                    match LocalizedText::decoding(s, limits) {
                        Err(e) => Err(e),
                        Ok((description, s)) =>
                            match UAString::decoding(s, limits) {
                                Err(e) => Err(e),
                                Ok((name, s)) =>
                                    Ok((
                                        EnumFieldView {
                                            value,
                                            display_name,
                                            description,
                                            name,
                                        },
                                        s,
                                    )),
                            },
                    },
            },
    }
}

impl BinaryEncoder for EnumField {
    open spec fn encoding(v: EnumFieldView) -> Seq<u8> {
        enum_field_encoding(v)
    }

    open spec fn encodable(v: EnumFieldView) -> bool {
        &&& LocalizedText::encodable(v.display_name)
        &&& LocalizedText::encodable(v.description)
        &&& UAString::encodable(v.name)
    }

    open spec fn within(v: EnumFieldView, limits: DecodingLimits) -> bool {
        &&& LocalizedText::within(v.display_name, limits)
        &&& LocalizedText::within(v.description, limits)
        &&& UAString::within(v.name, limits)
    }

    open spec fn decoding(s: Seq<u8>, limits: DecodingLimits) -> Result<
        (EnumFieldView, Seq<u8>),
        StatusCode,
    > {
        enum_field_decoding(s, limits)
    }

    proof fn lemma_round_trip(v: EnumFieldView, rest: Seq<u8>, limits: DecodingLimits) {
        reveal(enum_field_decoding);
        let p0 = i64::encoding(v.value);
        let p1 = LocalizedText::encoding(v.display_name);
        let p2 = LocalizedText::encoding(v.description);
        let p3 = UAString::encoding(v.name);
        let r3 = p3 + rest;
        let r2 = p2 + r3;
        let r1 = p1 + r2;
        lemma_concat_assoc(p0 + p1 + p2, p3, rest);
        lemma_concat_assoc(p0 + p1, p2, r3);
        lemma_concat_assoc(p0, p1, r2);
        i64::lemma_round_trip(v.value, r1, limits);
        LocalizedText::lemma_round_trip(v.display_name, r2, limits);
        LocalizedText::lemma_round_trip(v.description, r3, limits);
        UAString::lemma_round_trip(v.name, rest, limits);
    }

    fn byte_len(&self) -> (r: usize) {
        let ghost v = self@;
        let ghost e0 = i64::encoding(v.value);
        let ghost e1 = e0 + LocalizedText::encoding(v.display_name);
        let ghost e2 = e1 + LocalizedText::encoding(v.description);
        let ghost e3 = e2 + UAString::encoding(v.name);
        let mut size: usize = self.value.byte_len();
        size = add_part_len(
            size,
            self.display_name.byte_len(),
            Ghost(e0),
            Ghost(LocalizedText::encoding(v.display_name)),
        );
        size = add_part_len(
            size,
            self.description.byte_len(),
            Ghost(e1),
            Ghost(LocalizedText::encoding(v.description)),
        );
        size = add_part_len(
            size,
            self.name.byte_len(),
            Ghost(e2),
            Ghost(UAString::encoding(v.name)),
        );
        size
    }

    fn encode(&self, stream: &mut Vec<u8>) -> (r: EncodingResult<usize>) {
        let start = stream.len();
        let ghost o = stream@;
        let ghost v = self@;
        proof {
            lemma_extends_refl(o);
        }
        write_part(stream, &self.value, Ghost(o))?;
        write_part(stream, &self.display_name, Ghost(o))?;
        write_part(stream, &self.description, Ghost(o))?;
        write_part(stream, &self.name, Ghost(o))?;
        proof {
            let p0 = i64::encoding(v.value);
            let p1 = LocalizedText::encoding(v.display_name);
            let p2 = LocalizedText::encoding(v.description);
            let p3 = UAString::encoding(v.name);
            lemma_concat_assoc(o, p0, p1);
            lemma_concat_assoc(o, p0 + p1, p2);
            lemma_concat_assoc(o, p0 + p1 + p2, p3);
        }
        Ok(stream.len() - start)
    }

    fn decode(stream: &mut ReadStream, limits: &DecodingLimits) -> (r: EncodingResult<Self>) {
        proof {
            reveal(enum_field_decoding);
        }
        let value = i64::decode(stream, limits)?;
        let display_name = LocalizedText::decode(stream, limits)?;
        let description = LocalizedText::decode(stream, limits)?;
        let name = UAString::decode(stream, limits)?;
        Ok(EnumField { value, display_name, description, name })
    }
}

} // verus!
