//! Globally unique identifiers.

use vstd::prelude::*;
use crate::encoding::{BinaryEncoder, DecodingLimits, EncodingResult, ReadStream};
use crate::status_codes::StatusCode;

verus! {

/// A 16 byte identifier. On the wire it is `data1` as four bytes, `data2` and
/// `data3` as two bytes each and `data4` as eight, each least significant byte
/// first.
#[derive(Clone, Copy, Debug, PartialEq, Eq, Structural)]
pub struct Guid {
    pub data1: u32,
    pub data2: u16,
    pub data3: u16,
    pub data4: u64,
}

impl View for Guid {
    type V = Guid;

    open spec fn view(&self) -> Guid {
        *self
    }
}

impl Guid {
    /// The identifier made of zeroes.
    pub fn null() -> (r: Guid)
        ensures
            r == (Guid { data1: 0, data2: 0, data3: 0, data4: 0 }),
    {
        Guid { data1: 0, data2: 0, data3: 0, data4: 0 }
    }

    pub fn is_null(&self) -> (r: bool)
        ensures
            r == (*self == (Guid { data1: 0, data2: 0, data3: 0, data4: 0 })),
    {
        self.data1 == 0 && self.data2 == 0 && self.data3 == 0 && self.data4 == 0
    }
}

impl BinaryEncoder for Guid {
    open spec fn encoding(v: Guid) -> Seq<u8> {
        u32::encoding(v.data1) + u16::encoding(v.data2) + u16::encoding(v.data3) + u64::encoding(
            v.data4,
        )
    }

    open spec fn encodable(v: Guid) -> bool {
        true
    }

    open spec fn within(v: Guid, limits: DecodingLimits) -> bool {
        true
    }

    open spec fn decoding(s: Seq<u8>, limits: DecodingLimits) -> Result<(Guid, Seq<u8>), StatusCode> {
        match u32::decoding(s, limits) {
            Err(e) => Err(e),
            Ok((data1, s)) => match u16::decoding(s, limits) {
                Err(e) => Err(e),
                Ok((data2, s)) => match u16::decoding(s, limits) {
                    Err(e) => Err(e),
                    Ok((data3, s)) => match u64::decoding(s, limits) {
                        Err(e) => Err(e),
                        Ok((data4, s)) => Ok((Guid { data1, data2, data3, data4 }, s)),
                    },
                },
            },
        }
    }

    proof fn lemma_round_trip(v: Guid, rest: Seq<u8>, limits: DecodingLimits) {
        let r3 = u64::encoding(v.data4) + rest;
        let r2 = u16::encoding(v.data3) + r3;
        let r1 = u16::encoding(v.data2) + r2;
        assert(Self::encoding(v) + rest =~= u32::encoding(v.data1) + r1);
        u32::lemma_round_trip(v.data1, r1, limits);
        u16::lemma_round_trip(v.data2, r2, limits);
        u16::lemma_round_trip(v.data3, r3, limits);
        u64::lemma_round_trip(v.data4, rest, limits);
    }

    fn byte_len(&self) -> (r: usize) {
        proof {
            Self::lemma_round_trip(*self, Seq::empty(), DecodingLimits {
                max_string_length: 0,
                max_byte_string_length: 0,
                max_array_length: 0,
            });
            crate::encoding::lemma_u32_round_trip(self.data1, Seq::empty());
            crate::encoding::lemma_u16_round_trip(self.data2, Seq::empty());
            crate::encoding::lemma_u16_round_trip(self.data3, Seq::empty());
            crate::encoding::lemma_u64_round_trip(self.data4, Seq::empty());
        }
        16
    }

    fn encode(&self, stream: &mut Vec<u8>) -> (r: EncodingResult<usize>) {
        let start = stream.len();
        self.data1.encode(stream)?;
        self.data2.encode(stream)?;
        self.data3.encode(stream)?;
        self.data4.encode(stream)?;
        assert(stream@ =~= old(stream)@ + Self::encoding(*self));
        Ok(stream.len() - start)
    }

    fn decode(stream: &mut ReadStream, limits: &DecodingLimits) -> (r: EncodingResult<Self>) {
        let data1 = u32::decode(stream, limits)?;
        let data2 = u16::decode(stream, limits)?;
        let data3 = u16::decode(stream, limits)?;
        let data4 = u64::decode(stream, limits)?;
        Ok(Guid { data1, data2, data3, data4 })
    }
}

} // verus!
