//! Strings: optional UTF-8 text.

use vstd::prelude::*;
use vstd::utf8::{
    decode_utf8, encode_utf8, encode_utf8_decode_utf8, encode_utf8_valid_utf8, valid_utf8,
};
use crate::encoding::{
    BinaryEncoder, DecodingLimits, EncodingResult, ReadStream, bytes_decoding, bytes_encodable,
    bytes_encoding, bytes_within, byte_len_length_prefixed, lemma_bytes_round_trip,
    read_length_prefixed, write_length_prefixed,
};
use crate::status_codes::StatusCode;

verus! {

/// `String::from_utf8` of std: the string whose UTF-8 form the bytes are, or
/// nothing where the bytes are not well-formed UTF-8.
#[verifier::external_body]
fn string_from_utf8(bytes: Vec<u8>) -> (result: Option<String>)
    ensures
        result is Some <==> valid_utf8(bytes@),
        result matches Some(s) ==> s@ == decode_utf8(bytes@),
{
    match String::from_utf8(bytes) {
        Ok(s) => Some(s),
        Err(_) => None,
    }
}

/// A string of characters, or the null string.
#[derive(Debug, PartialEq, Eq)]
pub struct UAString {
    pub value: Option<String>,
}

impl Clone for UAString {
    fn clone(&self) -> (r: Self)
        ensures
            r@ == self@,
    {
        match &self.value {
            None => UAString { value: None },
            Some(s) => UAString { value: Some(s.clone()) },
        }
    }
}

impl View for UAString {
    type V = Option<Seq<char>>;

    open spec fn view(&self) -> Option<Seq<char>> {
        match self.value {
            None => None,
            Some(s) => Some(s@),
        }
    }
}

/// The UTF-8 form of an optional text.
pub open spec fn utf8_of(v: Option<Seq<char>>) -> Option<Seq<u8>> {
    match v {
        None => None,
        Some(chars) => Some(encode_utf8(chars)),
    }
}

impl UAString {
    /// The null string.
    pub fn null() -> (r: UAString)
        ensures
            r@ is None,
    {
        UAString { value: None }
    }

    /// A string with the given text.
    pub fn from_str(value: &str) -> (r: UAString)
        ensures
            r@ == Some(value@),
    {
        UAString { value: Some(value.to_owned()) }
    }

    /// Tests whether two strings hold the same text, or are both null.
    pub fn is_same(&self, other: &UAString) -> (r: bool)
        ensures
            r == (self@ == other@),
    {
        match (&self.value, &other.value) {
            (None, None) => true,
            (Some(a), Some(b)) => *a == *b,
            _ => false,
        }
    }

    /// Tests for the null string.
    pub fn is_null(&self) -> (r: bool)
        ensures
            r == (self@ is None),
    {
        self.value.is_none()
    }

    /// Tests for a null string or one without characters.
    pub fn is_empty(&self) -> (r: bool)
        ensures
            r == (self@ matches Some(chars) ==> chars.len() == 0),
    {
        match &self.value {
            None => true,
            Some(s) => s.as_str().is_empty(),
        }
    }
}

/// A string off the front of `s`: a run of at most `max_string_length`
/// bytes that is well-formed UTF-8, or the null string.
#[verifier::opaque]
pub open spec fn string_decoding(s: Seq<u8>, limits: DecodingLimits) -> Result<
    (Option<Seq<char>>, Seq<u8>),
    StatusCode,
> {
    match bytes_decoding(s, limits.max_string_length) {
        Err(e) => Err(e),
        Ok((None, rest)) => Ok((None, rest)),
        Ok((Some(bytes), rest)) => if valid_utf8(bytes) {
            Ok((Some(decode_utf8(bytes)), rest))
        } else {
            Err(StatusCode::BadDecodingError)
        },
    }
}

impl BinaryEncoder for UAString {
    open spec fn encoding(v: Option<Seq<char>>) -> Seq<u8> {
        bytes_encoding(utf8_of(v))
    }

    open spec fn encodable(v: Option<Seq<char>>) -> bool {
        bytes_encodable(utf8_of(v))
    }

    open spec fn within(v: Option<Seq<char>>, limits: DecodingLimits) -> bool {
        bytes_within(utf8_of(v), limits.max_string_length)
    }

    open spec fn decoding(s: Seq<u8>, limits: DecodingLimits) -> Result<
        (Option<Seq<char>>, Seq<u8>),
        StatusCode,
    > {
        string_decoding(s, limits)
    }

    proof fn lemma_round_trip(v: Option<Seq<char>>, rest: Seq<u8>, limits: DecodingLimits) {
        reveal(string_decoding);
        lemma_bytes_round_trip(utf8_of(v), rest, limits.max_string_length);
        if let Some(chars) = v {
            encode_utf8_valid_utf8(chars);
            encode_utf8_decode_utf8(chars);
        }
    }

    fn byte_len(&self) -> (r: usize) {
        match &self.value {
            None => byte_len_length_prefixed(None),
            Some(s) => byte_len_length_prefixed(Some(s.as_str().as_bytes().len())),
        }
    }

    fn encode(&self, stream: &mut Vec<u8>) -> (r: EncodingResult<usize>) {
        match &self.value {
            None => write_length_prefixed(stream, None),
            Some(s) => write_length_prefixed(stream, Some(s.as_str().as_bytes())),
        }
    }

    fn decode(stream: &mut ReadStream, limits: &DecodingLimits) -> (r: EncodingResult<Self>) {
        proof {
            reveal(string_decoding);
        }
        match read_length_prefixed(stream, limits.max_string_length)? {
            None => Ok(UAString { value: None }),
            Some(bytes) => match string_from_utf8(bytes) {
                Some(s) => Ok(UAString { value: Some(s) }),
                None => Err(StatusCode::BadDecodingError),
            },
        }
    }
}

} // verus!
