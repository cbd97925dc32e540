//! Localized text: a text and the locale it is written in.

use vstd::prelude::*;
use crate::encoding::{
    BinaryEncoder, DecodingLimits, EncodingResult, ReadStream, add_len, lemma_extends_refl,
    read_u8, write_part,
};
use crate::status_codes::StatusCode;
use crate::string::UAString;

verus! {

/// A human readable text with the locale it is in. Either part may be null.
#[derive(Debug, PartialEq, Eq)]
pub struct LocalizedText {
    pub locale: UAString,
    pub text: UAString,
}

/// The value of a `LocalizedText`.
pub struct LocalizedTextView {
    pub locale: Option<Seq<char>>,
    pub text: Option<Seq<char>>,
}

impl View for LocalizedText {
    type V = LocalizedTextView;

    open spec fn view(&self) -> LocalizedTextView {
        LocalizedTextView { locale: self.locale@, text: self.text@ }
    }
}

impl Clone for LocalizedText {
    fn clone(&self) -> (r: Self)
        ensures
            r@ == self@,
    {
        LocalizedText { locale: self.locale.clone(), text: self.text.clone() }
    }
}

impl LocalizedText {
    pub fn new(locale: &str, text: &str) -> (r: LocalizedText)
        ensures
            r@.locale == Some(locale@),
            r@.text == Some(text@),
    {
        LocalizedText { locale: UAString::from_str(locale), text: UAString::from_str(text) }
    }

    /// The text without locale and without text.
    pub fn null() -> (r: LocalizedText)
        ensures
            r@.locale is None,
            r@.text is None,
    {
        LocalizedText { locale: UAString::null(), text: UAString::null() }
    }
}

/// The byte that says which parts follow: 1 for the locale, 2 for the text.
pub open spec fn localized_text_mask(v: LocalizedTextView) -> u8 {
    ((if v.locale is Some { 1int } else { 0int }) + (if v.text is Some { 2int } else { 0int })) as u8
}

/// The string that follows where `present` holds, the null string else.
pub open spec fn optional_string_decoding(present: bool, s: Seq<u8>, limits: DecodingLimits) -> Result<
    (Option<Seq<char>>, Seq<u8>),
    StatusCode,
> {
    if present {
        UAString::decoding(s, limits)
    } else {
        Ok((None, s))
    }
}

/// A localized text off the front of `s`. Only the two lowest bits of the
/// mask are read.
#[verifier::opaque]
pub open spec fn localized_text_decoding(s: Seq<u8>, limits: DecodingLimits) -> Result<
    (LocalizedTextView, Seq<u8>),
    StatusCode,
> {
    match u8::decoding(s, limits) {
        Err(e) => Err(e),
        Ok((mask, s)) => match optional_string_decoding(mask % 2 == 1, s, limits) {
            Err(e) => Err(e),
            Ok((locale, s)) => match optional_string_decoding((mask / 2) % 2 == 1, s, limits) {
                Err(e) => Err(e),
                Ok((text, s)) => Ok((LocalizedTextView { locale, text }, s)),
            },
        },
    }
}

impl BinaryEncoder for LocalizedText {
    /// The mask, then the parts that are not null.
    open spec fn encoding(v: LocalizedTextView) -> Seq<u8> {
        seq![localized_text_mask(v)] + (if v.locale is Some {
            UAString::encoding(v.locale)
        } else {
            Seq::empty()
        }) + (if v.text is Some {
            UAString::encoding(v.text)
        } else {
            Seq::empty()
        })
    }

    open spec fn encodable(v: LocalizedTextView) -> bool {
        UAString::encodable(v.locale) && UAString::encodable(v.text)
    }

    open spec fn within(v: LocalizedTextView, limits: DecodingLimits) -> bool {
        UAString::within(v.locale, limits) && UAString::within(v.text, limits)
    }

    open spec fn decoding(s: Seq<u8>, limits: DecodingLimits) -> Result<
        (LocalizedTextView, Seq<u8>),
        StatusCode,
    > {
        localized_text_decoding(s, limits)
    }

    proof fn lemma_round_trip(v: LocalizedTextView, rest: Seq<u8>, limits: DecodingLimits) {
        reveal(localized_text_decoding);
        let s = Self::encoding(v) + rest;
        let r2 = (if v.text is Some {
            UAString::encoding(v.text)
        } else {
            Seq::empty()
        }) + rest;
        let r1 = (if v.locale is Some {
            UAString::encoding(v.locale)
        } else {
            Seq::empty()
        }) + r2;
        assert(s =~= seq![localized_text_mask(v)] + r1);
        assert(s.skip(1) =~= r1);
        if v.locale is Some {
            UAString::lemma_round_trip(v.locale, r2, limits);
        } else {
            assert(r1 =~= r2);
        }
        if v.text is Some {
            UAString::lemma_round_trip(v.text, rest, limits);
        } else {
            assert(r2 =~= rest);
        }
    }

    fn byte_len(&self) -> (r: usize) {
        let mut size: usize = 1;
        if !self.locale.is_null() {
            size = add_len(size, self.locale.byte_len());
        }
        if !self.text.is_null() {
            size = add_len(size, self.text.byte_len());
        }
        size
    }

    fn encode(&self, stream: &mut Vec<u8>) -> (r: EncodingResult<usize>) {
        let start = stream.len();
        let ghost o = stream@;
        proof {
            lemma_extends_refl(o);
        }
        let mut mask: u8 = 0;
        if !self.locale.is_null() {
            mask = mask + 1;
        }
        if !self.text.is_null() {
            mask = mask + 2;
        }
        write_part(stream, &mask, Ghost(o))?;
        if !self.locale.is_null() {
            write_part(stream, &self.locale, Ghost(o))?;
        }
        if !self.text.is_null() {
            write_part(stream, &self.text, Ghost(o))?;
        }
        assert(stream@ =~= o + Self::encoding(self@));
        Ok(stream.len() - start)
    }

    fn decode(stream: &mut ReadStream, limits: &DecodingLimits) -> (r: EncodingResult<Self>) {
        proof {
            reveal(localized_text_decoding);
        }
        let mask = read_u8(stream)?;
        let locale = if mask % 2 == 1 {
            UAString::decode(stream, limits)?
        } else {
            UAString::null()
        };
        let text = if (mask / 2) % 2 == 1 {
            UAString::decode(stream, limits)?
        } else {
            UAString::null()
        };
        Ok(LocalizedText { locale, text })
    }
}

} // verus!
