//! Byte strings: optional runs of raw bytes.

use vstd::prelude::*;
use vstd::slice::slice_to_vec;
use crate::encoding::{
    BinaryEncoder, DecodingLimits, EncodingResult, ReadStream, bytes_decoding, bytes_encodable,
    bytes_encoding, bytes_within, byte_len_length_prefixed, lemma_bytes_round_trip,
    read_length_prefixed, write_length_prefixed,
};
use crate::status_codes::StatusCode;

verus! {

/// A sequence of bytes, or the null byte string.
#[derive(Debug, PartialEq, Eq)]
pub struct ByteString {
    pub value: Option<Vec<u8>>,
}

impl Clone for ByteString {
    fn clone(&self) -> (r: Self)
        ensures
            r@ == self@,
    {
        match &self.value {
            None => ByteString { value: None },
            Some(v) => ByteString { value: Some(slice_to_vec(v.as_slice())) },
        }
    }
}

impl View for ByteString {
    type V = Option<Seq<u8>>;

    open spec fn view(&self) -> Option<Seq<u8>> {
        match self.value {
            None => None,
            Some(v) => Some(v@),
        }
    }
}

/// Tests whether two runs of bytes are the same.
pub fn same_bytes(a: &[u8], b: &[u8]) -> (r: bool)
    ensures
        r == (a@ == b@),
{
    if a.len() != b.len() {
        return false;
    }
    let mut i: usize = 0;
    while i < a.len()
        invariant
            i <= a.len(),
            a.len() == b.len(),
            forall|k: int| 0 <= k < i ==> a@[k] == b@[k],
        decreases a.len() - i,
    {
        if a[i] != b[i] {
            return false;
        }
        i += 1;
    }
    assert(a@ =~= b@);
    true
}

impl ByteString {
    /// The null byte string.
    pub fn null() -> (r: ByteString)
        ensures
            r@ is None,
    {
        ByteString { value: None }
    }

    /// A byte string that holds a copy of the given bytes.
    pub fn from_bytes(bytes: &[u8]) -> (r: ByteString)
        ensures
            r@ == Some(bytes@),
    {
        ByteString { value: Some(slice_to_vec(bytes)) }
    }

    /// Tests whether two byte strings hold the same bytes, or are both null.
    pub fn is_same(&self, other: &ByteString) -> (r: bool)
        ensures
            r == (self@ == other@),
    {
        match (&self.value, &other.value) {
            (None, None) => true,
            (Some(a), Some(b)) => same_bytes(a.as_slice(), b.as_slice()),
            _ => false,
        }
    }

    /// Tests for the null byte string.
    pub fn is_null(&self) -> (r: bool)
        ensures
            r == (self@ is None),
    {
        self.value.is_none()
    }

    /// Tests for a null byte string or one without bytes.
    pub fn is_null_or_empty(&self) -> (r: bool)
        ensures
            r == (self@ matches Some(b) ==> b.len() == 0),
    {
        match &self.value {
            None => true,
            Some(v) => v.len() == 0,
        }
    }
}

impl BinaryEncoder for ByteString {
    open spec fn encoding(v: Option<Seq<u8>>) -> Seq<u8> {
        bytes_encoding(v)
    }

    open spec fn encodable(v: Option<Seq<u8>>) -> bool {
        bytes_encodable(v)
    }

    open spec fn within(v: Option<Seq<u8>>, limits: DecodingLimits) -> bool {
        bytes_within(v, limits.max_byte_string_length)
    }

    open spec fn decoding(s: Seq<u8>, limits: DecodingLimits) -> Result<
        (Option<Seq<u8>>, Seq<u8>),
        StatusCode,
    > {
        bytes_decoding(s, limits.max_byte_string_length)
    }

    proof fn lemma_round_trip(v: Option<Seq<u8>>, rest: Seq<u8>, limits: DecodingLimits) {
        lemma_bytes_round_trip(v, rest, limits.max_byte_string_length);
    }

    fn byte_len(&self) -> (r: usize) {
        match &self.value {
            None => byte_len_length_prefixed(None),
            Some(v) => byte_len_length_prefixed(Some(v.len())),
        }
    }

    fn encode(&self, stream: &mut Vec<u8>) -> (r: EncodingResult<usize>) {
        match &self.value {
            None => write_length_prefixed(stream, None),
            Some(v) => write_length_prefixed(stream, Some(v.as_slice())),
        }
    }

    fn decode(stream: &mut ReadStream, limits: &DecodingLimits) -> (r: EncodingResult<Self>) {
        let value = read_length_prefixed(stream, limits.max_byte_string_length)?;
        Ok(ByteString { value })
    }
}

} // verus!
