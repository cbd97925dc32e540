//! The binary codec's framework: the stream that decoders read from, the
//! limits a decoder enforces, the trait every wire type implements, and the
//! length-prefixed arrays built over that trait.

use vstd::prelude::*;
use vstd::slice::{slice_subrange, slice_to_vec};
use vstd::bytes::{
    spec_u16_from_le_bytes, spec_u16_to_le_bytes, spec_u32_from_le_bytes, spec_u32_to_le_bytes,
    spec_u64_from_le_bytes, spec_u64_to_le_bytes, u16_from_le_bytes, u16_to_le_bytes,
    u32_from_le_bytes, u32_to_le_bytes, u64_from_le_bytes, u64_to_le_bytes,
    lemma_auto_spec_u16_to_from_le_bytes, lemma_auto_spec_u32_to_from_le_bytes,
    lemma_auto_spec_u64_to_from_le_bytes,
};
use crate::constants::{MAX_ARRAY_LENGTH, MAX_BYTE_STRING_LENGTH, MAX_STRING_LENGTH};
use crate::status_codes::StatusCode;

verus! {

pub type EncodingResult<T> = Result<T, StatusCode>;

/// The largest length that a length prefix can carry.
pub const MAX_WIRE_LENGTH: usize = 0x7fff_ffff;

/// The sizes beyond which a decoder rejects what it reads.
#[derive(Clone, Copy, Debug, PartialEq, Eq)]
pub struct DecodingLimits {
    /// Longest string, in bytes, that is accepted.
    pub max_string_length: usize,
    /// Longest byte string that is accepted.
    pub max_byte_string_length: usize,
    /// Largest number of elements of an array that is accepted.
    pub max_array_length: usize,
}

impl Default for DecodingLimits {
    fn default() -> (r: Self)
        ensures
            r.max_string_length == MAX_STRING_LENGTH,
            r.max_byte_string_length == MAX_BYTE_STRING_LENGTH,
            r.max_array_length == MAX_ARRAY_LENGTH,
    {
        DecodingLimits {
            max_string_length: MAX_STRING_LENGTH,
            max_byte_string_length: MAX_BYTE_STRING_LENGTH,
            max_array_length: MAX_ARRAY_LENGTH,
        }
    }
}

/// The bytes that are still to be read from an incoming buffer.
pub struct ReadStream<'a> {
    rest: &'a [u8],
}

impl<'a> View for ReadStream<'a> {
    type V = Seq<u8>;

    closed spec fn view(&self) -> Seq<u8> {
        self.rest@
    }
}

impl<'a> ReadStream<'a> {
    pub fn new(data: &'a [u8]) -> (r: Self)
        ensures
            r@ == data@,
    {
        ReadStream { rest: data }
    }

    /// Number of bytes left.
    pub fn remaining(&self) -> (r: usize)
        ensures
            r == self@.len(),
    {
        self.rest.len()
    }

    /// Takes the next `n` bytes off the stream. With fewer than `n` bytes left
    /// the stream is left as it was and the read fails.
    pub fn read_bytes(&mut self, n: usize) -> (r: EncodingResult<&'a [u8]>)
        ensures
            old(self)@.len() >= n ==> r is Ok && r.unwrap()@ == old(self)@.take(n as int)
                && final(self)@ == old(self)@.skip(n as int),
            old(self)@.len() < n ==> r == Err::<&[u8], StatusCode>(StatusCode::BadDecodingError)
                && final(self)@ == old(self)@,
    {
        let len = self.rest.len();
        if len < n {
            return Err(StatusCode::BadDecodingError);
        }
        let head = slice_subrange(self.rest, 0, n);
        self.rest = slice_subrange(self.rest, n, len);
        Ok(head)
    }
}

/// A length as `byte_len` reports it: exact while it fits a `usize`, and
/// pinned at `usize::MAX` beyond.
pub open spec fn saturated(n: nat) -> usize {
    if n <= usize::MAX {
        n as usize
    } else {
        usize::MAX
    }
}

/// Adds two reported lengths, staying at `usize::MAX` once it is reached.
pub fn add_len(a: usize, b: usize) -> (r: usize)
    ensures
        r == saturated((a + b) as nat),
{
    if a > usize::MAX - b {
        usize::MAX
    } else {
        a + b
    }
}

/// Adds the size of one more part to the size of the parts in front of it.
/// `before` is the wire form of those parts and `part` that of the new one.
pub(crate) fn add_part_len(
    size: usize,
    part_size: usize,
    Ghost(before): Ghost<Seq<u8>>,
    Ghost(part): Ghost<Seq<u8>>,
) -> (r: usize)
    requires
        size == saturated(before.len()),
        part_size == saturated(part.len()),
    ensures
        r == saturated((before + part).len()),
{
    add_len(size, part_size)
}

/// Wire form of a byte: the byte itself.
pub open spec fn u8_encoding(v: u8) -> Seq<u8> {
    seq![v]
}

/// A byte off the front of `s`.
pub open spec fn u8_decoding(s: Seq<u8>) -> Result<(u8, Seq<u8>), StatusCode> {
    if s.len() < 1 {
        Err(StatusCode::BadDecodingError)
    } else {
        Ok((s[0], s.skip(1)))
    }
}

/// Wire form of a signed byte: its two's complement as a byte.
pub open spec fn i8_encoding(v: i8) -> Seq<u8> {
    seq![v as u8]
}

/// A signed byte off the front of `s`.
pub open spec fn i8_decoding(s: Seq<u8>) -> Result<(i8, Seq<u8>), StatusCode> {
    if s.len() < 1 {
        Err(StatusCode::BadDecodingError)
    } else {
        Ok((s[0] as i8, s.skip(1)))
    }
}

/// Wire form of a boolean: one byte, 1 for true and 0 for false.
pub open spec fn bool_encoding(v: bool) -> Seq<u8> {
    seq![if v { 1u8 } else { 0u8 }]
}

/// A boolean off the front of `s`: true for the byte 1, false for any other.
pub open spec fn bool_decoding(s: Seq<u8>) -> Result<(bool, Seq<u8>), StatusCode> {
    if s.len() < 1 {
        Err(StatusCode::BadDecodingError)
    } else {
        Ok((s[0] == 1, s.skip(1)))
    }
}

/// Wire form of a `u16`: 2 bytes, least significant first.
pub open spec fn u16_encoding(v: u16) -> Seq<u8> {
    spec_u16_to_le_bytes(v)
}

/// A `u16` off the front of `s`.
pub open spec fn u16_decoding(s: Seq<u8>) -> Result<(u16, Seq<u8>), StatusCode> {
    if s.len() < 2 {
        Err(StatusCode::BadDecodingError)
    } else {
        Ok((spec_u16_from_le_bytes(s.take(2)), s.skip(2)))
    }
}

/// Wire form of an `i16`: its two's complement as a `u16`.
pub open spec fn i16_encoding(v: i16) -> Seq<u8> {
    spec_u16_to_le_bytes(v as u16)
}

/// An `i16` off the front of `s`.
pub open spec fn i16_decoding(s: Seq<u8>) -> Result<(i16, Seq<u8>), StatusCode> {
    if s.len() < 2 {
        Err(StatusCode::BadDecodingError)
    } else {
        Ok((spec_u16_from_le_bytes(s.take(2)) as i16, s.skip(2)))
    }
}

/// Wire form of a `u32`: 4 bytes, least significant first.
pub open spec fn u32_encoding(v: u32) -> Seq<u8> {
    spec_u32_to_le_bytes(v)
}

/// A `u32` off the front of `s`.
pub open spec fn u32_decoding(s: Seq<u8>) -> Result<(u32, Seq<u8>), StatusCode> {
    if s.len() < 4 {
        Err(StatusCode::BadDecodingError)
    } else {
        Ok((spec_u32_from_le_bytes(s.take(4)), s.skip(4)))
    }
}

/// Wire form of an `i32`: its two's complement as a `u32`.
pub open spec fn i32_encoding(v: i32) -> Seq<u8> {
    spec_u32_to_le_bytes(v as u32)
}

/// An `i32` off the front of `s`.
pub open spec fn i32_decoding(s: Seq<u8>) -> Result<(i32, Seq<u8>), StatusCode> {
    if s.len() < 4 {
        Err(StatusCode::BadDecodingError)
    } else {
        Ok((spec_u32_from_le_bytes(s.take(4)) as i32, s.skip(4)))
    }
}

/// Wire form of a `u64`: 8 bytes, least significant first.
pub open spec fn u64_encoding(v: u64) -> Seq<u8> {
    spec_u64_to_le_bytes(v)
}

/// A `u64` off the front of `s`.
pub open spec fn u64_decoding(s: Seq<u8>) -> Result<(u64, Seq<u8>), StatusCode> {
    if s.len() < 8 {
        Err(StatusCode::BadDecodingError)
    } else {
        Ok((spec_u64_from_le_bytes(s.take(8)), s.skip(8)))
    }
}

/// Wire form of an `i64`: its two's complement as a `u64`.
pub open spec fn i64_encoding(v: i64) -> Seq<u8> {
    spec_u64_to_le_bytes(v as u64)
}

/// An `i64` off the front of `s`.
pub open spec fn i64_decoding(s: Seq<u8>) -> Result<(i64, Seq<u8>), StatusCode> {
    if s.len() < 8 {
        Err(StatusCode::BadDecodingError)
    } else {
        Ok((spec_u64_from_le_bytes(s.take(8)) as i64, s.skip(8)))
    }
}

/// Writes an unsigned byte to the stream.
pub fn write_u8(stream: &mut Vec<u8>, value: u8) -> (r: EncodingResult<usize>)
    ensures
        r == Ok::<usize, StatusCode>(1),
        final(stream)@ == old(stream)@ + u8_encoding(value),
{
    stream.push(value);
    assert(stream@ =~= old(stream)@ + u8_encoding(value));
    Ok(1)
}

/// Reads an unsigned byte from the stream.
pub fn read_u8(stream: &mut ReadStream) -> (r: EncodingResult<u8>)
    ensures
        match u8_decoding(old(stream)@) {
            Ok((v, rest)) => r == Ok::<u8, StatusCode>(v) && final(stream)@ == rest,
            Err(e) => r == Err::<u8, StatusCode>(e),
        },
{
    let b = stream.read_bytes(1)?;
    Ok(b[0])
}

/// Writes a signed byte to the stream.
pub fn write_i8(stream: &mut Vec<u8>, value: i8) -> (r: EncodingResult<usize>)
    ensures
        r == Ok::<usize, StatusCode>(1),
        final(stream)@ == old(stream)@ + i8_encoding(value),
{
    write_u8(stream, #[verifier::truncate] (value as u8))
}

/// Reads a signed byte from the stream.
pub fn read_i8(stream: &mut ReadStream) -> (r: EncodingResult<i8>)
    ensures
        match i8_decoding(old(stream)@) {
            Ok((v, rest)) => r == Ok::<i8, StatusCode>(v) && final(stream)@ == rest,
            Err(e) => r == Err::<i8, StatusCode>(e),
        },
{
    let v = read_u8(stream)?;
    Ok(#[verifier::truncate] (v as i8))
}

/// A signed byte is read back from its wire form.
pub proof fn lemma_i8_round_trip(v: i8, rest: Seq<u8>)
    ensures
        i8_encoding(v).len() == 1,
        i8_decoding(i8_encoding(v) + rest) == Ok::<(i8, Seq<u8>), StatusCode>((v, rest)),
{
    let s = i8_encoding(v) + rest;
    assert(s.skip(1) =~= rest);
    assert((v as u8) as i8 == v) by (bit_vector);
}

/// Writes a boolean to the stream.
pub fn write_bool(stream: &mut Vec<u8>, value: bool) -> (r: EncodingResult<usize>)
    ensures
        r == Ok::<usize, StatusCode>(1),
        final(stream)@ == old(stream)@ + bool_encoding(value),
{
    stream.push(if value { 1 } else { 0 });
    assert(stream@ =~= old(stream)@ + bool_encoding(value));
    Ok(1)
}

/// Reads a boolean from the stream.
pub fn read_bool(stream: &mut ReadStream) -> (r: EncodingResult<bool>)
    ensures
        match bool_decoding(old(stream)@) {
            Ok((v, rest)) => r == Ok::<bool, StatusCode>(v) && final(stream)@ == rest,
            Err(e) => r == Err::<bool, StatusCode>(e),
        },
{
    let b = stream.read_bytes(1)?;
    Ok(b[0] == 1)
}

/// Writes an unsigned 16 bit value to the stream.
pub fn write_u16(stream: &mut Vec<u8>, value: u16) -> (r: EncodingResult<usize>)
    ensures
        r == Ok::<usize, StatusCode>(2),
        final(stream)@ == old(stream)@ + u16_encoding(value),
{
    let mut bytes = u16_to_le_bytes(value);
    stream.append(&mut bytes);
    Ok(2)
}

/// Reads an unsigned 16 bit value from the stream.
pub fn read_u16(stream: &mut ReadStream) -> (r: EncodingResult<u16>)
    ensures
        match u16_decoding(old(stream)@) {
            Ok((v, rest)) => r == Ok::<u16, StatusCode>(v) && final(stream)@ == rest,
            Err(e) => r == Err::<u16, StatusCode>(e),
        },
{
    let b = stream.read_bytes(2)?;
    Ok(u16_from_le_bytes(b))
}

/// Writes a signed 16 bit value to the stream.
pub fn write_i16(stream: &mut Vec<u8>, value: i16) -> (r: EncodingResult<usize>)
    ensures
        r == Ok::<usize, StatusCode>(2),
        final(stream)@ == old(stream)@ + i16_encoding(value),
{
    write_u16(stream, #[verifier::truncate] (value as u16))
}

/// Reads a signed 16 bit value from the stream.
pub fn read_i16(stream: &mut ReadStream) -> (r: EncodingResult<i16>)
    ensures
        match i16_decoding(old(stream)@) {
            Ok((v, rest)) => r == Ok::<i16, StatusCode>(v) && final(stream)@ == rest,
            Err(e) => r == Err::<i16, StatusCode>(e),
        },
{
    let v = read_u16(stream)?;
    Ok(#[verifier::truncate] (v as i16))
}

/// A `u16` is read back from its wire form.
pub proof fn lemma_u16_round_trip(v: u16, rest: Seq<u8>)
    ensures
        u16_encoding(v).len() == 2,
        u16_decoding(u16_encoding(v) + rest) == Ok::<(u16, Seq<u8>), StatusCode>((v, rest)),
{
    lemma_auto_spec_u16_to_from_le_bytes();
    let s = u16_encoding(v) + rest;
    assert(s.take(2) =~= u16_encoding(v));
    assert(s.skip(2) =~= rest);
}

/// An `i16` is read back from its wire form.
pub proof fn lemma_i16_round_trip(v: i16, rest: Seq<u8>)
    ensures
        i16_encoding(v).len() == 2,
        i16_decoding(i16_encoding(v) + rest) == Ok::<(i16, Seq<u8>), StatusCode>((v, rest)),
{
    lemma_u16_round_trip(v as u16, rest);
    assert((v as u16) as i16 == v) by (bit_vector);
}

/// Writes an unsigned 32 bit value to the stream.
pub fn write_u32(stream: &mut Vec<u8>, value: u32) -> (r: EncodingResult<usize>)
    ensures
        r == Ok::<usize, StatusCode>(4),
        final(stream)@ == old(stream)@ + u32_encoding(value),
{
    let mut bytes = u32_to_le_bytes(value);
    stream.append(&mut bytes);
    Ok(4)
}

/// Reads an unsigned 32 bit value from the stream.
pub fn read_u32(stream: &mut ReadStream) -> (r: EncodingResult<u32>)
    ensures
        match u32_decoding(old(stream)@) {
            Ok((v, rest)) => r == Ok::<u32, StatusCode>(v) && final(stream)@ == rest,
            Err(e) => r == Err::<u32, StatusCode>(e),
        },
{
    let b = stream.read_bytes(4)?;
    Ok(u32_from_le_bytes(b))
}

/// Writes a signed 32 bit value to the stream.
pub fn write_i32(stream: &mut Vec<u8>, value: i32) -> (r: EncodingResult<usize>)
    ensures
        r == Ok::<usize, StatusCode>(4),
        final(stream)@ == old(stream)@ + i32_encoding(value),
{
    write_u32(stream, #[verifier::truncate] (value as u32))
}

/// Reads a signed 32 bit value from the stream.
pub fn read_i32(stream: &mut ReadStream) -> (r: EncodingResult<i32>)
    ensures
        match i32_decoding(old(stream)@) {
            Ok((v, rest)) => r == Ok::<i32, StatusCode>(v) && final(stream)@ == rest,
            Err(e) => r == Err::<i32, StatusCode>(e),
        },
{
    let v = read_u32(stream)?;
    Ok(#[verifier::truncate] (v as i32))
}

/// A `u32` is read back from its wire form.
pub proof fn lemma_u32_round_trip(v: u32, rest: Seq<u8>)
    ensures
        u32_encoding(v).len() == 4,
        u32_decoding(u32_encoding(v) + rest) == Ok::<(u32, Seq<u8>), StatusCode>((v, rest)),
{
    lemma_auto_spec_u32_to_from_le_bytes();
    let s = u32_encoding(v) + rest;
    assert(s.take(4) =~= u32_encoding(v));
    assert(s.skip(4) =~= rest);
}

/// An `i32` is read back from its wire form.
pub proof fn lemma_i32_round_trip(v: i32, rest: Seq<u8>)
    ensures
        i32_encoding(v).len() == 4,
        i32_decoding(i32_encoding(v) + rest) == Ok::<(i32, Seq<u8>), StatusCode>((v, rest)),
{
    lemma_u32_round_trip(v as u32, rest);
    assert((v as u32) as i32 == v) by (bit_vector);
}

/// Writes an unsigned 64 bit value to the stream.
pub fn write_u64(stream: &mut Vec<u8>, value: u64) -> (r: EncodingResult<usize>)
    ensures
        r == Ok::<usize, StatusCode>(8),
        final(stream)@ == old(stream)@ + u64_encoding(value),
{
    let mut bytes = u64_to_le_bytes(value);
    stream.append(&mut bytes);
    Ok(8)
}

/// Reads an unsigned 64 bit value from the stream.
pub fn read_u64(stream: &mut ReadStream) -> (r: EncodingResult<u64>)
    ensures
        match u64_decoding(old(stream)@) {
            Ok((v, rest)) => r == Ok::<u64, StatusCode>(v) && final(stream)@ == rest,
            Err(e) => r == Err::<u64, StatusCode>(e),
        },
{
    let b = stream.read_bytes(8)?;
    Ok(u64_from_le_bytes(b))
}

/// Writes a signed 64 bit value to the stream.
pub fn write_i64(stream: &mut Vec<u8>, value: i64) -> (r: EncodingResult<usize>)
    ensures
        r == Ok::<usize, StatusCode>(8),
        final(stream)@ == old(stream)@ + i64_encoding(value),
{
    write_u64(stream, #[verifier::truncate] (value as u64))
}

/// Reads a signed 64 bit value from the stream.
pub fn read_i64(stream: &mut ReadStream) -> (r: EncodingResult<i64>)
    ensures
        match i64_decoding(old(stream)@) {
            Ok((v, rest)) => r == Ok::<i64, StatusCode>(v) && final(stream)@ == rest,
            Err(e) => r == Err::<i64, StatusCode>(e),
        },
{
    let v = read_u64(stream)?;
    Ok(#[verifier::truncate] (v as i64))
}

/// A `u64` is read back from its wire form.
pub proof fn lemma_u64_round_trip(v: u64, rest: Seq<u8>)
    ensures
        u64_encoding(v).len() == 8,
        u64_decoding(u64_encoding(v) + rest) == Ok::<(u64, Seq<u8>), StatusCode>((v, rest)),
{
    lemma_auto_spec_u64_to_from_le_bytes();
    let s = u64_encoding(v) + rest;
    assert(s.take(8) =~= u64_encoding(v));
    assert(s.skip(8) =~= rest);
}

/// An `i64` is read back from its wire form.
pub proof fn lemma_i64_round_trip(v: i64, rest: Seq<u8>)
    ensures
        i64_encoding(v).len() == 8,
        i64_decoding(i64_encoding(v) + rest) == Ok::<(i64, Seq<u8>), StatusCode>((v, rest)),
{
    lemma_u64_round_trip(v as u64, rest);
    assert((v as u64) as i64 == v) by (bit_vector);
}

/// Appends raw bytes to the stream.
pub fn write_bytes(stream: &mut Vec<u8>, bytes: &[u8]) -> (r: EncodingResult<usize>)
    ensures
        r matches Ok(n) && n == bytes@.len(),
        final(stream)@ == old(stream)@ + bytes@,
{
    let mut copy = slice_to_vec(bytes);
    stream.append(&mut copy);
    Ok(bytes.len())
}

/// Wire form of an optional run of bytes: its length as an `i32`, then the
/// bytes. The absent run is the length -1 alone.
pub open spec fn bytes_encoding(b: Option<Seq<u8>>) -> Seq<u8> {
    match b {
        None => i32_encoding(-1i32),
        Some(bytes) => i32_encoding(bytes.len() as i32) + bytes,
    }
}

pub open spec fn bytes_encodable(b: Option<Seq<u8>>) -> bool {
    match b {
        None => true,
        Some(bytes) => bytes.len() <= MAX_WIRE_LENGTH,
    }
}

pub open spec fn bytes_within(b: Option<Seq<u8>>, max_len: usize) -> bool {
    match b {
        None => true,
        Some(bytes) => bytes.len() <= max_len,
    }
}

/// An optional run of at most `max_len` bytes off the front of `s`. The
/// length -1 is the absent run, a length below that is malformed, one above
/// `max_len` is refused, and a run that `s` does not hold in full is
/// malformed.
#[verifier::opaque]
pub open spec fn bytes_decoding(s: Seq<u8>, max_len: usize) -> Result<
    (Option<Seq<u8>>, Seq<u8>),
    StatusCode,
> {
    match i32_decoding(s) {
        Err(e) => Err(e),
        Ok((len, rest)) => if len == -1 {
            Ok((None, rest))
        } else if len < -1 {
            Err(StatusCode::BadDecodingError)
        } else if len > max_len {
            Err(StatusCode::BadEncodingLimitsExceeded)
        } else if rest.len() < len {
            Err(StatusCode::BadDecodingError)
        } else {
            Ok((Some(rest.take(len as int)), rest.skip(len as int)))
        },
    }
}

/// An optional run of bytes is read back from its wire form.
pub proof fn lemma_bytes_round_trip(b: Option<Seq<u8>>, rest: Seq<u8>, max_len: usize)
    requires
        bytes_encodable(b),
        bytes_within(b, max_len),
    ensures
        bytes_decoding(bytes_encoding(b) + rest, max_len) == Ok::<
            (Option<Seq<u8>>, Seq<u8>),
            StatusCode,
        >((b, rest)),
        bytes_encoding(b).len() == 4 + (if b is Some { b.unwrap().len() } else { 0 }),
{
    reveal(bytes_decoding);
    match b {
        None => {
            lemma_i32_round_trip(-1i32, rest);
        },
        Some(bytes) => {
            let len = bytes.len() as i32;
            let body = bytes + rest;
            assert(bytes_encoding(b) + rest =~= i32_encoding(len) + body);
            lemma_i32_round_trip(len, body);
            assert(body.take(len as int) =~= bytes);
            assert(body.skip(len as int) =~= rest);
        },
    }
}

/// Size of the wire form of an optional run of `len` bytes.
pub fn byte_len_length_prefixed(len: Option<usize>) -> (r: usize)
    ensures
        forall|b: Option<Seq<u8>>|
            (b is Some == len is Some) && (b matches Some(bytes) ==> bytes.len() == len.unwrap())
                ==> r == saturated(#[trigger] bytes_encoding(b).len()),
{
    proof {
        assert forall|v: i32| #[trigger] i32_encoding(v).len() == 4 by {
            lemma_i32_round_trip(v, Seq::empty());
        }
    }
    match len {
        None => 4,
        Some(n) => add_len(4, n),
    }
}

/// The bytes that an optional slice holds.
pub open spec fn slice_view(bytes: Option<&[u8]>) -> Option<Seq<u8>> {
    match bytes {
        None => None,
        Some(b) => Some(b@),
    }
}

/// Appends the wire form of an optional run of bytes to the stream. A run too
/// long for its length prefix is refused, and nothing is written.
pub fn write_length_prefixed(stream: &mut Vec<u8>, bytes: Option<&[u8]>) -> (r: EncodingResult<
    usize,
>)
    ensures
        bytes_encodable(slice_view(bytes)) ==> (r matches Ok(n) && n == bytes_encoding(
            slice_view(bytes),
        ).len()) && final(stream)@ == old(stream)@ + bytes_encoding(slice_view(bytes)),
        !bytes_encodable(slice_view(bytes)) ==> r == Err::<usize, StatusCode>(
            StatusCode::BadEncodingLimitsExceeded,
        ) && final(stream)@ == old(stream)@ && extends(final(stream)@, old(stream)@),
{
    match bytes {
        None => {
            proof {
                lemma_i32_round_trip(-1i32, Seq::empty());
            }
            write_i32(stream, -1)
        },
        Some(b) => {
            if b.len() > MAX_WIRE_LENGTH {
                proof {
                    lemma_extends_refl(stream@);
                }
                return Err(StatusCode::BadEncodingLimitsExceeded);
            }
            proof {
                lemma_i32_round_trip(b@.len() as i32, Seq::empty());
            }
            write_i32(stream, b.len() as i32)?;
            write_bytes(stream, b)?;
            assert(stream@ =~= old(stream)@ + bytes_encoding(Some(b@)));
            Ok(4 + b.len())
        },
    }
}

/// Reads an optional run of at most `max_len` bytes from the stream.
pub fn read_length_prefixed(stream: &mut ReadStream, max_len: usize) -> (r: EncodingResult<
    Option<Vec<u8>>,
>)
    ensures
        match bytes_decoding(old(stream)@, max_len) {
            Ok((v, rest)) => r is Ok && (match r.unwrap() {
                None => v is None,
                Some(b) => v == Some(b@),
            }) && final(stream)@ == rest,
            Err(e) => r matches Err(x) && x == e,
        },
{
    proof {
        reveal(bytes_decoding);
    }
    let len = read_i32(stream)?;
    if len == -1 {
        return Ok(None);
    }
    if len < -1 {
        return Err(StatusCode::BadDecodingError);
    }
    if len as usize > max_len {
        return Err(StatusCode::BadEncodingLimitsExceeded);
    }
    let bytes = stream.read_bytes(len as usize)?;
    Ok(Some(slice_to_vec(bytes)))
}

/// `new` is `old` with bytes added behind it, or `old` itself.
#[verifier::opaque]
pub open spec fn extends(new: Seq<u8>, old: Seq<u8>) -> bool {
    old.is_prefix_of(new)
}

/// A run of bytes extends itself.
pub proof fn lemma_extends_refl(a: Seq<u8>)
    ensures
        extends(a, a),
{
    reveal(extends);
}

/// What is added behind an extension of `a` extends `a`.
pub proof fn lemma_extends_add(a: Seq<u8>, b: Seq<u8>, c: Seq<u8>)
    requires
        extends(b, a),
    ensures
        extends(b + c, a),
{
    reveal(extends);
}

/// An extension of an extension of `a` extends `a`.
pub proof fn lemma_extends_trans(a: Seq<u8>, b: Seq<u8>, c: Seq<u8>)
    requires
        extends(b, a),
        extends(c, b),
    ensures
        extends(c, a),
{
    reveal(extends);
}

/// A type with a binary wire form. `Self::V` is the value that a wire form
/// stands for; `encoding` and `decoding` say what the wire form of a value is
/// and what a run of bytes is read as.
pub trait BinaryEncoder: Sized + View {
    /// The wire form of a value.
    spec fn encoding(v: Self::V) -> Seq<u8>;

    /// Every length inside the value fits the 32 bit signed prefix that
    /// carries it.
    spec fn encodable(v: Self::V) -> bool;

    /// Every length inside the value is one that a decoder with these limits
    /// accepts.
    spec fn within(v: Self::V, limits: DecodingLimits) -> bool;

    /// What a decoder with the given limits makes of the front of `s`: the
    /// value and the bytes behind it, or the reason for rejecting it.
    spec fn decoding(s: Seq<u8>, limits: DecodingLimits) -> Result<(Self::V, Seq<u8>), StatusCode>;

    /// Decoding what was encoded gives the value back and stops right behind it.
    proof fn lemma_round_trip(v: Self::V, rest: Seq<u8>, limits: DecodingLimits)
        requires
            Self::encodable(v),
            Self::within(v, limits),
        ensures
            Self::decoding(Self::encoding(v) + rest, limits) == Ok::<(Self::V, Seq<u8>), StatusCode>(
                (v, rest),
            ),
    ;

    /// Size of the wire form in bytes.
    fn byte_len(&self) -> (r: usize)
        ensures
            r == saturated(Self::encoding(self@).len()),
    ;

    /// Appends the wire form to `stream` and returns its size. A value that
    /// is not encodable is refused; the stream then holds, behind what it
    /// held, the parts that were written before the refusal.
    fn encode(&self, stream: &mut Vec<u8>) -> (r: EncodingResult<usize>)
        ensures
            Self::encodable(self@) ==> (r matches Ok(n) && n == Self::encoding(self@).len())
                && final(stream)@ == old(stream)@ + Self::encoding(self@),
            !Self::encodable(self@) ==> r == Err::<usize, StatusCode>(
                StatusCode::BadEncodingLimitsExceeded,
            ) && extends(final(stream)@, old(stream)@),
    ;

    /// Reads one value off the front of `stream`. After a failure the position
    /// of the stream is not defined.
    fn decode(stream: &mut ReadStream, limits: &DecodingLimits) -> (r: EncodingResult<Self>)
        ensures
            match Self::decoding(old(stream)@, *limits) {
                Ok((v, rest)) => r is Ok && r.unwrap()@ == v && final(stream)@ == rest,
                Err(e) => r matches Err(x) && x == e,
            },
    ;
}

impl BinaryEncoder for u8 {
    open spec fn encoding(v: u8) -> Seq<u8> {
        u8_encoding(v)
    }

    open spec fn encodable(v: u8) -> bool {
        true
    }

    open spec fn within(v: u8, limits: DecodingLimits) -> bool {
        true
    }

    open spec fn decoding(s: Seq<u8>, limits: DecodingLimits) -> Result<(u8, Seq<u8>), StatusCode> {
        u8_decoding(s)
    }

    proof fn lemma_round_trip(v: u8, rest: Seq<u8>, limits: DecodingLimits) {
        let s = u8_encoding(v) + rest;
        assert(s.skip(1) =~= rest);
    }

    fn byte_len(&self) -> (r: usize) {
        1
    }

    fn encode(&self, stream: &mut Vec<u8>) -> (r: EncodingResult<usize>) {
        write_u8(stream, *self)
    }

    fn decode(stream: &mut ReadStream, limits: &DecodingLimits) -> (r: EncodingResult<Self>) {
        read_u8(stream)
    }
}

impl BinaryEncoder for i8 {
    open spec fn encoding(v: i8) -> Seq<u8> {
        i8_encoding(v)
    }

    open spec fn encodable(v: i8) -> bool {
        true
    }

    open spec fn within(v: i8, limits: DecodingLimits) -> bool {
        true
    }

    open spec fn decoding(s: Seq<u8>, limits: DecodingLimits) -> Result<(i8, Seq<u8>), StatusCode> {
        i8_decoding(s)
    }

    proof fn lemma_round_trip(v: i8, rest: Seq<u8>, limits: DecodingLimits) {
        lemma_i8_round_trip(v, rest);
    }

    fn byte_len(&self) -> (r: usize) {
        1
    }

    fn encode(&self, stream: &mut Vec<u8>) -> (r: EncodingResult<usize>) {
        write_i8(stream, *self)
    }

    fn decode(stream: &mut ReadStream, limits: &DecodingLimits) -> (r: EncodingResult<Self>) {
        read_i8(stream)
    }
}

impl BinaryEncoder for bool {
    open spec fn encoding(v: bool) -> Seq<u8> {
        bool_encoding(v)
    }

    open spec fn encodable(v: bool) -> bool {
        true
    }

    open spec fn within(v: bool, limits: DecodingLimits) -> bool {
        true
    }

    open spec fn decoding(s: Seq<u8>, limits: DecodingLimits) -> Result<(bool, Seq<u8>), StatusCode> {
        bool_decoding(s)
    }

    proof fn lemma_round_trip(v: bool, rest: Seq<u8>, limits: DecodingLimits) {
        let s = bool_encoding(v) + rest;
        assert(s.skip(1) =~= rest);
    }

    fn byte_len(&self) -> (r: usize) {
        1
    }

    fn encode(&self, stream: &mut Vec<u8>) -> (r: EncodingResult<usize>) {
        write_bool(stream, *self)
    }

    fn decode(stream: &mut ReadStream, limits: &DecodingLimits) -> (r: EncodingResult<Self>) {
        read_bool(stream)
    }
}

impl BinaryEncoder for u16 {
    open spec fn encoding(v: u16) -> Seq<u8> {
        u16_encoding(v)
    }

    open spec fn encodable(v: u16) -> bool {
        true
    }

    open spec fn within(v: u16, limits: DecodingLimits) -> bool {
        true
    }

    open spec fn decoding(s: Seq<u8>, limits: DecodingLimits) -> Result<(u16, Seq<u8>), StatusCode> {
        u16_decoding(s)
    }

    proof fn lemma_round_trip(v: u16, rest: Seq<u8>, limits: DecodingLimits) {
        lemma_u16_round_trip(v, rest);
    }

    fn byte_len(&self) -> (r: usize) {
        proof {
            lemma_u16_round_trip(*self, Seq::empty());
        }
        2
    }

    fn encode(&self, stream: &mut Vec<u8>) -> (r: EncodingResult<usize>) {
        proof {
            lemma_u16_round_trip(*self, Seq::empty());
        }
        write_u16(stream, *self)
    }

    fn decode(stream: &mut ReadStream, limits: &DecodingLimits) -> (r: EncodingResult<Self>) {
        read_u16(stream)
    }
}

impl BinaryEncoder for i16 {
    open spec fn encoding(v: i16) -> Seq<u8> {
        i16_encoding(v)
    }

    open spec fn encodable(v: i16) -> bool {
        true
    }

    open spec fn within(v: i16, limits: DecodingLimits) -> bool {
        true
    }

    open spec fn decoding(s: Seq<u8>, limits: DecodingLimits) -> Result<(i16, Seq<u8>), StatusCode> {
        i16_decoding(s)
    }

    proof fn lemma_round_trip(v: i16, rest: Seq<u8>, limits: DecodingLimits) {
        lemma_i16_round_trip(v, rest);
    }

    fn byte_len(&self) -> (r: usize) {
        proof {
            lemma_i16_round_trip(*self, Seq::empty());
        }
        2
    }

    fn encode(&self, stream: &mut Vec<u8>) -> (r: EncodingResult<usize>) {
        proof {
            lemma_i16_round_trip(*self, Seq::empty());
        }
        write_i16(stream, *self)
    }

    fn decode(stream: &mut ReadStream, limits: &DecodingLimits) -> (r: EncodingResult<Self>) {
        read_i16(stream)
    }
}

impl BinaryEncoder for u32 {
    open spec fn encoding(v: u32) -> Seq<u8> {
        u32_encoding(v)
    }

    open spec fn encodable(v: u32) -> bool {
        true
    }

    open spec fn within(v: u32, limits: DecodingLimits) -> bool {
        true
    }

    open spec fn decoding(s: Seq<u8>, limits: DecodingLimits) -> Result<(u32, Seq<u8>), StatusCode> {
        u32_decoding(s)
    }

    proof fn lemma_round_trip(v: u32, rest: Seq<u8>, limits: DecodingLimits) {
        lemma_u32_round_trip(v, rest);
    }

    fn byte_len(&self) -> (r: usize) {
        proof {
            lemma_u32_round_trip(*self, Seq::empty());
        }
        4
    }

    fn encode(&self, stream: &mut Vec<u8>) -> (r: EncodingResult<usize>) {
        proof {
            lemma_u32_round_trip(*self, Seq::empty());
        }
        write_u32(stream, *self)
    }

    fn decode(stream: &mut ReadStream, limits: &DecodingLimits) -> (r: EncodingResult<Self>) {
        read_u32(stream)
    }
}

impl BinaryEncoder for i32 {
    open spec fn encoding(v: i32) -> Seq<u8> {
        i32_encoding(v)
    }

    open spec fn encodable(v: i32) -> bool {
        true
    }

    open spec fn within(v: i32, limits: DecodingLimits) -> bool {
        true
    }

    open spec fn decoding(s: Seq<u8>, limits: DecodingLimits) -> Result<(i32, Seq<u8>), StatusCode> {
        i32_decoding(s)
    }

    proof fn lemma_round_trip(v: i32, rest: Seq<u8>, limits: DecodingLimits) {
        lemma_i32_round_trip(v, rest);
    }

    fn byte_len(&self) -> (r: usize) {
        proof {
            lemma_i32_round_trip(*self, Seq::empty());
        }
        4
    }

    fn encode(&self, stream: &mut Vec<u8>) -> (r: EncodingResult<usize>) {
        proof {
            lemma_i32_round_trip(*self, Seq::empty());
        }
        write_i32(stream, *self)
    }

    fn decode(stream: &mut ReadStream, limits: &DecodingLimits) -> (r: EncodingResult<Self>) {
        read_i32(stream)
    }
}

impl BinaryEncoder for u64 {
    open spec fn encoding(v: u64) -> Seq<u8> {
        u64_encoding(v)
    }

    open spec fn encodable(v: u64) -> bool {
        true
    }

    open spec fn within(v: u64, limits: DecodingLimits) -> bool {
        true
    }

    open spec fn decoding(s: Seq<u8>, limits: DecodingLimits) -> Result<(u64, Seq<u8>), StatusCode> {
        u64_decoding(s)
    }

    proof fn lemma_round_trip(v: u64, rest: Seq<u8>, limits: DecodingLimits) {
        lemma_u64_round_trip(v, rest);
    }

    fn byte_len(&self) -> (r: usize) {
        proof {
            lemma_u64_round_trip(*self, Seq::empty());
        }
        8
    }

    fn encode(&self, stream: &mut Vec<u8>) -> (r: EncodingResult<usize>) {
        proof {
            lemma_u64_round_trip(*self, Seq::empty());
        }
        write_u64(stream, *self)
    }

    fn decode(stream: &mut ReadStream, limits: &DecodingLimits) -> (r: EncodingResult<Self>) {
        read_u64(stream)
    }
}

impl BinaryEncoder for i64 {
    open spec fn encoding(v: i64) -> Seq<u8> {
        i64_encoding(v)
    }

    open spec fn encodable(v: i64) -> bool {
        true
    }

    open spec fn within(v: i64, limits: DecodingLimits) -> bool {
        true
    }

    open spec fn decoding(s: Seq<u8>, limits: DecodingLimits) -> Result<(i64, Seq<u8>), StatusCode> {
        i64_decoding(s)
    }

    proof fn lemma_round_trip(v: i64, rest: Seq<u8>, limits: DecodingLimits) {
        lemma_i64_round_trip(v, rest);
    }

    fn byte_len(&self) -> (r: usize) {
        proof {
            lemma_i64_round_trip(*self, Seq::empty());
        }
        8
    }

    fn encode(&self, stream: &mut Vec<u8>) -> (r: EncodingResult<usize>) {
        proof {
            lemma_i64_round_trip(*self, Seq::empty());
        }
        write_i64(stream, *self)
    }

    fn decode(stream: &mut ReadStream, limits: &DecodingLimits) -> (r: EncodingResult<Self>) {
        read_i64(stream)
    }
}

/// Appends the wire form of one part of a value to the stream. `start` is
/// what the stream held when the encoding of the whole value began.
pub(crate) fn write_part<T: BinaryEncoder>(stream: &mut Vec<u8>, part: &T, Ghost(start): Ghost<Seq<u8>>) -> (r:
    EncodingResult<usize>)
    requires
        extends(old(stream)@, start),
    ensures
        T::encodable(part@) ==> (r matches Ok(n) && n == T::encoding(part@).len()) && final(stream)@
            == old(stream)@ + T::encoding(part@),
        !T::encodable(part@) ==> r == Err::<usize, StatusCode>(
            StatusCode::BadEncodingLimitsExceeded,
        ),
        extends(final(stream)@, start),
{
    let r = part.encode(stream);
    proof {
        if T::encodable(part@) {
            lemma_extends_add(start, old(stream)@, T::encoding(part@));
        } else {
            lemma_extends_trans(start, old(stream)@, stream@);
        }
    }
    r
}

/// Runs of bytes put one behind the other can be grouped either way.
pub proof fn lemma_concat_assoc(a: Seq<u8>, b: Seq<u8>, c: Seq<u8>)
    ensures
        (a + b) + c == a + (b + c),
{
    assert((a + b) + c =~= a + (b + c));
}

/// The value of an optional part: absent, or the value of what is there.
pub open spec fn option_view<T: View>(v: Option<T>) -> Option<T::V> {
    match v {
        None => None,
        Some(x) => Some(x@),
    }
}

/// Wire form of a part that may be absent: nothing where it is.
pub open spec fn optional_encoding<T: BinaryEncoder>(v: Option<T::V>) -> Seq<u8> {
    match v {
        None => Seq::empty(),
        Some(x) => T::encoding(x),
    }
}

pub open spec fn optional_encodable<T: BinaryEncoder>(v: Option<T::V>) -> bool {
    v matches Some(x) ==> T::encodable(x)
}

pub open spec fn optional_within<T: BinaryEncoder>(v: Option<T::V>, limits: DecodingLimits) -> bool {
    v matches Some(x) ==> T::within(x, limits)
}

/// A part that is read only where `present` holds.
pub open spec fn optional_decoding<T: BinaryEncoder>(
    present: bool,
    s: Seq<u8>,
    limits: DecodingLimits,
) -> Result<(Option<T::V>, Seq<u8>), StatusCode> {
    if present {
        match T::decoding(s, limits) {
            Err(e) => Err(e),
            Ok((v, s)) => Ok((Some(v), s)),
        }
    } else {
        Ok((None, s))
    }
}

/// A part that may be absent is read back from its wire form.
pub proof fn lemma_optional_round_trip<T: BinaryEncoder>(
    v: Option<T::V>,
    rest: Seq<u8>,
    limits: DecodingLimits,
)
    requires
        optional_encodable::<T>(v),
        optional_within::<T>(v, limits),
    ensures
        optional_decoding::<T>(v is Some, optional_encoding::<T>(v) + rest, limits) == Ok::<
            (Option<T::V>, Seq<u8>),
            StatusCode,
        >((v, rest)),
{
    match v {
        None => {
            assert(optional_encoding::<T>(v) + rest =~= rest);
        },
        Some(x) => {
            T::lemma_round_trip(x, rest, limits);
        },
    }
}

/// Size of the wire form of a part that may be absent.
pub fn byte_len_optional<T: BinaryEncoder>(value: &Option<T>) -> (r: usize)
    ensures
        r == saturated(optional_encoding::<T>(option_view(*value)).len()),
{
    match value {
        None => 0,
        Some(v) => v.byte_len(),
    }
}

/// Appends the wire form of a part that may be absent to the stream.
pub fn write_optional<T: BinaryEncoder>(stream: &mut Vec<u8>, value: &Option<T>) -> (r:
    EncodingResult<usize>)
    ensures
        optional_encodable::<T>(option_view(*value)) ==> (r matches Ok(n) && n
            == optional_encoding::<T>(option_view(*value)).len()) && final(stream)@ == old(stream)@
            + optional_encoding::<T>(option_view(*value)),
        !optional_encodable::<T>(option_view(*value)) ==> r == Err::<usize, StatusCode>(
            StatusCode::BadEncodingLimitsExceeded,
        ) && extends(final(stream)@, old(stream)@),
{
    match value {
        None => {
            assert(stream@ =~= old(stream)@ + Seq::<u8>::empty());
            proof {
                lemma_extends_refl(stream@);
            }
            Ok(0)
        },
        Some(v) => v.encode(stream),
    }
}

/// Appends the wire form of a part that may be absent, one part of a value,
/// to the stream. `start` is what the stream held when the encoding of the
/// whole value began.
pub(crate) fn write_optional_part<T: BinaryEncoder>(
    stream: &mut Vec<u8>,
    value: &Option<T>,
    Ghost(start): Ghost<Seq<u8>>,
) -> (r: EncodingResult<usize>)
    requires
        extends(old(stream)@, start),
    ensures
        optional_encodable::<T>(option_view(*value)) ==> (r matches Ok(n) && n
            == optional_encoding::<T>(option_view(*value)).len()) && final(stream)@ == old(stream)@
            + optional_encoding::<T>(option_view(*value)),
        !optional_encodable::<T>(option_view(*value)) ==> r == Err::<usize, StatusCode>(
            StatusCode::BadEncodingLimitsExceeded,
        ),
        extends(final(stream)@, start),
{
    let r = write_optional(stream, value);
    proof {
        if optional_encodable::<T>(option_view(*value)) {
            lemma_extends_add(
                start,
                old(stream)@,
                optional_encoding::<T>(option_view(*value)),
            );
        } else {
            lemma_extends_trans(start, old(stream)@, stream@);
        }
    }
    r
}

/// Reads a part from the stream where `present` holds.
pub fn read_optional<T: BinaryEncoder>(
    present: bool,
    stream: &mut ReadStream,
    limits: &DecodingLimits,
) -> (r: EncodingResult<Option<T>>)
    ensures
        match optional_decoding::<T>(present, old(stream)@, *limits) {
            Ok((v, rest)) => r is Ok && option_view(r.unwrap()) == v && final(stream)@ == rest,
            Err(e) => r matches Err(x) && x == e,
        },
{
    if present {
        Ok(Some(T::decode(stream, limits)?))
    } else {
        Ok(None)
    }
}

/// The values that the elements of a sequence stand for.
pub open spec fn seq_view<T: View>(s: Seq<T>) -> Seq<T::V> {
    Seq::new(s.len(), |i: int| s[i]@)
}

/// The value of an optional array: absent, or the values of its elements.
pub open spec fn array_view<T: View>(a: Option<Vec<T>>) -> Option<Seq<T::V>> {
    match a {
        None => None,
        Some(v) => Some(seq_view(v@)),
    }
}

/// The wire forms of the items, one behind the other.
pub open spec fn items_encoding<T: BinaryEncoder>(items: Seq<T::V>) -> Seq<u8>
    decreases items.len(),
{
    if items.len() == 0 {
        Seq::empty()
    } else {
        T::encoding(items[0]) + items_encoding::<T>(items.skip(1))
    }
}

pub open spec fn items_encodable<T: BinaryEncoder>(items: Seq<T::V>) -> bool {
    forall|i: int| 0 <= i < items.len() ==> T::encodable(#[trigger] items[i])
}

pub open spec fn items_within<T: BinaryEncoder>(items: Seq<T::V>, limits: DecodingLimits) -> bool {
    forall|i: int| 0 <= i < items.len() ==> T::within(#[trigger] items[i], limits)
}

/// Wire form of an optional array: the number of items as an `i32`, then the
/// items. An absent array is the length -1 alone, which sets it apart from an
/// array without items.
pub open spec fn array_encoding<T: BinaryEncoder>(a: Option<Seq<T::V>>) -> Seq<u8> {
    match a {
        None => i32_encoding(-1i32),
        Some(items) => i32_encoding(items.len() as i32) + items_encoding::<T>(items),
    }
}

pub open spec fn array_encodable<T: BinaryEncoder>(a: Option<Seq<T::V>>) -> bool {
    match a {
        None => true,
        Some(items) => items.len() <= MAX_WIRE_LENGTH && items_encodable::<T>(items),
    }
}

pub open spec fn array_within<T: BinaryEncoder>(a: Option<Seq<T::V>>, limits: DecodingLimits) -> bool {
    match a {
        None => true,
        Some(items) => items.len() <= limits.max_array_length && items_within::<T>(items, limits),
    }
}

/// Reads `n` items off the front of `s` and puts them behind `acc`.
pub open spec fn items_decoding<T: BinaryEncoder>(
    s: Seq<u8>,
    n: nat,
    limits: DecodingLimits,
    acc: Seq<T::V>,
) -> Result<(Seq<T::V>, Seq<u8>), StatusCode>
    decreases n,
{
    if n == 0 {
        Ok((acc, s))
    } else {
        match T::decoding(s, limits) {
            Err(e) => Err(e),
            Ok((v, rest)) => items_decoding::<T>(rest, (n - 1) as nat, limits, acc.push(v)),
        }
    }
}

/// An optional array off the front of `s`. The length -1 is the absent array,
/// a length below that is malformed, and one above the limit is refused before
/// any item is read.
pub open spec fn array_decoding<T: BinaryEncoder>(s: Seq<u8>, limits: DecodingLimits) -> Result<
    (Option<Seq<T::V>>, Seq<u8>),
    StatusCode,
> {
    match i32_decoding(s) {
        Err(e) => Err(e),
        Ok((len, rest)) => if len == -1 {
            Ok((None, rest))
        } else if len < -1 {
            Err(StatusCode::BadDecodingError)
        } else if len > limits.max_array_length {
            Err(StatusCode::BadEncodingLimitsExceeded)
        } else {
            match items_decoding::<T>(rest, len as nat, limits, Seq::empty()) {
                Err(e) => Err(e),
                Ok((items, rest)) => Ok((Some(items), rest)),
            }
        },
    }
}

/// The wire form of two runs of items is the wire form of the first followed
/// by that of the second.
pub proof fn lemma_items_encoding_concat<T: BinaryEncoder>(a: Seq<T::V>, b: Seq<T::V>)
    ensures
        items_encoding::<T>(a + b) == items_encoding::<T>(a) + items_encoding::<T>(b),
    decreases a.len(),
{
    if a.len() == 0 {
        assert(a + b =~= b);
        assert(items_encoding::<T>(a) + items_encoding::<T>(b) =~= items_encoding::<T>(b));
    } else {
        lemma_items_encoding_concat::<T>(a.skip(1), b);
        assert((a + b).skip(1) =~= a.skip(1) + b);
        assert((a + b)[0] == a[0]);
        assert(items_encoding::<T>(a + b) =~= items_encoding::<T>(a) + items_encoding::<T>(b));
    }
}

/// Adding one item at the end adds its wire form at the end.
pub proof fn lemma_items_encoding_push<T: BinaryEncoder>(a: Seq<T::V>, v: T::V)
    ensures
        items_encoding::<T>(a.push(v)) == items_encoding::<T>(a) + T::encoding(v),
{
    let b = seq![v];
    lemma_items_encoding_concat::<T>(a, b);
    assert(a.push(v) =~= a + b);
    assert(items_encoding::<T>(b.skip(1)) =~= Seq::<u8>::empty());
    assert(items_encoding::<T>(b) =~= T::encoding(v));
}

/// Items are read back from their wire forms, in order.
pub proof fn lemma_items_round_trip<T: BinaryEncoder>(
    items: Seq<T::V>,
    rest: Seq<u8>,
    limits: DecodingLimits,
    acc: Seq<T::V>,
)
    requires
        items_encodable::<T>(items),
        items_within::<T>(items, limits),
    ensures
        items_decoding::<T>(items_encoding::<T>(items) + rest, items.len(), limits, acc) == Ok::<
            (Seq<T::V>, Seq<u8>),
            StatusCode,
        >((acc + items, rest)),
    decreases items.len(),
{
    if items.len() == 0 {
        assert(items_encoding::<T>(items) + rest =~= rest);
        assert(acc + items =~= acc);
    } else {
        let tail = items.skip(1);
        let tail_bytes = items_encoding::<T>(tail) + rest;
        assert(items_encoding::<T>(items) + rest =~= T::encoding(items[0]) + tail_bytes);
        T::lemma_round_trip(items[0], tail_bytes, limits);
        assert forall|i: int| 0 <= i < tail.len() implies T::encodable(#[trigger] tail[i]) by {
            assert(tail[i] == items[i + 1]);
        }
        assert forall|i: int| 0 <= i < tail.len() implies T::within(#[trigger] tail[i], limits) by {
            assert(tail[i] == items[i + 1]);
        }
        lemma_items_round_trip::<T>(tail, rest, limits, acc.push(items[0]));
        assert(acc.push(items[0]) + tail =~= acc + items);
    }
}

/// An optional array is read back from its wire form.
pub proof fn lemma_array_round_trip<T: BinaryEncoder>(
    a: Option<Seq<T::V>>,
    rest: Seq<u8>,
    limits: DecodingLimits,
)
    requires
        array_encodable::<T>(a),
        array_within::<T>(a, limits),
    ensures
        array_decoding::<T>(array_encoding::<T>(a) + rest, limits) == Ok::<
            (Option<Seq<T::V>>, Seq<u8>),
            StatusCode,
        >((a, rest)),
{
    match a {
        None => {
            lemma_i32_round_trip(-1i32, rest);
        },
        Some(items) => {
            let len = items.len() as i32;
            let body = items_encoding::<T>(items) + rest;
            assert(array_encoding::<T>(a) + rest =~= i32_encoding(len) + body);
            lemma_i32_round_trip(len, body);
            lemma_items_round_trip::<T>(items, rest, limits, Seq::empty());
            assert(Seq::<T::V>::empty() + items =~= items);
        },
    }
}

/// Size of the wire form of an optional array.
pub fn byte_len_array<T: BinaryEncoder>(values: &Option<Vec<T>>) -> (r: usize)
    ensures
        r == saturated(array_encoding::<T>(array_view(*values)).len()),
{
    proof {
        lemma_i32_round_trip(-1i32, Seq::empty());
    }
    match values {
        None => 4,
        Some(values) => {
            let ghost items = seq_view(values@);
            proof {
                lemma_i32_round_trip(items.len() as i32, Seq::empty());
            }
            let mut size: usize = 4;
            let mut i: usize = 0;
            while i < values.len()
                invariant
                    i <= values.len(),
                    items == seq_view(values@),
                    size == saturated(4 + items_encoding::<T>(items.take(i as int)).len()),
                decreases values.len() - i,
            {
                proof {
                    lemma_items_encoding_push::<T>(items.take(i as int), items[i as int]);
                    assert(items.take(i as int).push(items[i as int]) =~= items.take(i + 1));
                }
                size = add_len(size, values[i].byte_len());
                i += 1;
            }
            proof {
                assert(items.take(i as int) =~= items);
            }
            size
        },
    }
}

/// Appends the wire form of an optional array, one part of a value, to the
/// stream. `start` is what the stream held when the encoding of the whole
/// value began.
pub(crate) fn write_array_part<T: BinaryEncoder>(
    stream: &mut Vec<u8>,
    values: &Option<Vec<T>>,
    Ghost(start): Ghost<Seq<u8>>,
) -> (r: EncodingResult<usize>)
    requires
        extends(old(stream)@, start),
    ensures
        array_encodable::<T>(array_view(*values)) ==> (r matches Ok(n) && n == array_encoding::<T>(
            array_view(*values),
        ).len()) && final(stream)@ == old(stream)@ + array_encoding::<T>(array_view(*values)),
        !array_encodable::<T>(array_view(*values)) ==> r == Err::<usize, StatusCode>(
            StatusCode::BadEncodingLimitsExceeded,
        ),
        extends(final(stream)@, start),
{
    let r = write_array(stream, values);
    proof {
        if array_encodable::<T>(array_view(*values)) {
            lemma_extends_add(start, old(stream)@, array_encoding::<T>(array_view(*values)));
        } else {
            lemma_extends_trans(start, old(stream)@, stream@);
        }
    }
    r
}

/// Appends the wire form of an optional array to the stream.
pub fn write_array<T: BinaryEncoder>(stream: &mut Vec<u8>, values: &Option<Vec<T>>) -> (r:
    EncodingResult<usize>)
    ensures
        array_encodable::<T>(array_view(*values)) ==> (r matches Ok(n) && n == array_encoding::<T>(
            array_view(*values),
        ).len()) && final(stream)@ == old(stream)@ + array_encoding::<T>(array_view(*values)),
        !array_encodable::<T>(array_view(*values)) ==> r == Err::<usize, StatusCode>(
            StatusCode::BadEncodingLimitsExceeded,
        ) && extends(final(stream)@, old(stream)@),
{
    let ghost start = stream@;
    proof {
        lemma_i32_round_trip(-1i32, Seq::empty());
    }
    match values {
        None => write_i32(stream, -1),
        Some(list) => {
            let ghost items = seq_view(list@);
            proof {
                lemma_extends_refl(start);
            }
            if list.len() > MAX_WIRE_LENGTH {
                return Err(StatusCode::BadEncodingLimitsExceeded);
            }
            proof {
                lemma_i32_round_trip(items.len() as i32, Seq::empty());
                lemma_extends_add(start, start, i32_encoding(items.len() as i32));
            }
            let mut size: usize = write_i32(stream, list.len() as i32)?;
            let mut i: usize = 0;
            while i < list.len()
                invariant
                    i <= list.len(),
                    items == seq_view(list@),
                    array_view(*values) == Some(items),
                    start == old(stream)@,
                    i32_encoding(items.len() as i32).len() == 4,
                    items.len() <= MAX_WIRE_LENGTH,
                    items_encodable::<T>(items.take(i as int)),
                    extends(stream@, start),
                    stream@ == start + i32_encoding(items.len() as i32) + items_encoding::<T>(
                        items.take(i as int),
                    ),
                    size == 4 + items_encoding::<T>(items.take(i as int)).len(),
                decreases list.len() - i,
            {
                proof {
                    lemma_items_encoding_push::<T>(items.take(i as int), items[i as int]);
                    assert(items.take(i as int).push(items[i as int]) =~= items.take(i + 1));
                }
                let ghost before = stream@;
                assert(items[i as int] == list[i as int]@);
                match list[i].encode(stream) {
                    Ok(n) => {
                        assert(stream@.len() == before.len() + n);
                        assert(stream.len() == stream@.len());
                        size = size + n;
                        proof {
                            lemma_extends_add(start, before, T::encoding(items[i as int]));
                            assert(stream@ =~= start + i32_encoding(items.len() as i32)
                                + items_encoding::<T>(items.take(i + 1)));
                            assert forall|j: int| 0 <= j < i + 1 implies T::encodable(
                                #[trigger] items.take(i + 1)[j],
                            ) by {
                                if j < i {
                                    assert(items.take(i as int)[j] == items[j]);
                                }
                            }
                        }
                    },
                    Err(e) => {
                        proof {
                            assert(!T::encodable(items[i as int]));
                            assert(!items_encodable::<T>(items));
                            lemma_extends_trans(start, before, stream@);
                        }
                        return Err(e);
                    },
                }
                i += 1;
            }
            proof {
                assert(items.take(i as int) =~= items);
                assert(stream@ =~= start + array_encoding::<T>(Some(items)));
                assert(items_encodable::<T>(items));
            }
            Ok(size)
        },
    }
}

/// Reads an optional array from the stream.
pub fn read_array<T: BinaryEncoder>(stream: &mut ReadStream, limits: &DecodingLimits) -> (r:
    EncodingResult<Option<Vec<T>>>)
    ensures
        match array_decoding::<T>(old(stream)@, *limits) {
            Ok((v, rest)) => r is Ok && array_view(r.unwrap()) == v && final(stream)@ == rest,
            Err(e) => r matches Err(x) && x == e,
        },
{
    let len = read_i32(stream)?;
    if len == -1 {
        return Ok(None);
    }
    if len < -1 {
        return Err(StatusCode::BadDecodingError);
    }
    if len as usize > limits.max_array_length {
        return Err(StatusCode::BadEncodingLimitsExceeded);
    }
    let ghost body = stream@;
    let ghost whole = array_decoding::<T>(old(stream)@, *limits);
    let n = len as usize;
    let mut values: Vec<T> = Vec::with_capacity(n);
    let mut i: usize = 0;
    proof {
        assert(seq_view(values@) =~= Seq::<T::V>::empty());
    }
    while i < n
        invariant
            i <= n,
            values@.len() == i,
            whole == array_decoding::<T>(old(stream)@, *limits),
            whole == match items_decoding::<T>(body, n as nat, *limits, Seq::empty()) {
                Err(e) => Err::<(Option<Seq<T::V>>, Seq<u8>), StatusCode>(e),
                Ok((items, rest)) => Ok((Some(items), rest)),
            },
            items_decoding::<T>(body, n as nat, *limits, Seq::empty()) == items_decoding::<T>(
                stream@,
                (n - i) as nat,
                *limits,
                seq_view(values@),
            ),
        decreases n - i,
    {
        let ghost before = seq_view(values@);
        let ghost here = stream@;
        match T::decode(stream, limits) {
            Ok(value) => {
                values.push(value);
                proof {
                    assert(seq_view(values@) =~= before.push(value@));
                }
            },
            Err(e) => {
                proof {
                    assert(items_decoding::<T>(here, (n - i) as nat, *limits, before) == Err::<
                        (Seq<T::V>, Seq<u8>),
                        StatusCode,
                    >(e));
                }
                return Err(e);
            },
        }
        i += 1;
    }
    Ok(Some(values))
}

} // verus!
