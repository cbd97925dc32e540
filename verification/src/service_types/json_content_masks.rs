//! The bit masks that say which parts JSON messages hold.

use vstd::prelude::*;
use crate::encoding::{
    BinaryEncoder, DecodingLimits, EncodingResult, ReadStream, lemma_u32_round_trip, read_u32,
    u32_decoding, u32_encoding, write_u32,
};
use crate::status_codes::StatusCode;

verus! {

/// The parts of a JSON network message, one bit each.
#[derive(Debug, Copy, Clone, PartialEq, Eq, Structural)]
pub struct JsonNetworkMessageContentMask {
    pub bits: u32,
}

impl View for JsonNetworkMessageContentMask {
    type V = JsonNetworkMessageContentMask;

    open spec fn view(&self) -> JsonNetworkMessageContentMask {
        *self
    }
}

impl BinaryEncoder for JsonNetworkMessageContentMask {
    /// The bits as a `u32`.
    open spec fn encoding(v: JsonNetworkMessageContentMask) -> Seq<u8> {
        u32_encoding(v.bits)
    }

    open spec fn encodable(v: JsonNetworkMessageContentMask) -> bool {
        true
    }

    open spec fn within(v: JsonNetworkMessageContentMask, limits: DecodingLimits) -> bool {
        true
    }

    open spec fn decoding(s: Seq<u8>, limits: DecodingLimits) -> Result<
        (JsonNetworkMessageContentMask, Seq<u8>),
        StatusCode,
    > {
        match u32_decoding(s) {
            Err(e) => Err(e),
            Ok((bits, s)) => Ok((JsonNetworkMessageContentMask { bits }, s)),
        }
    }

    proof fn lemma_round_trip(v: JsonNetworkMessageContentMask, rest: Seq<u8>, limits: DecodingLimits) {
        lemma_u32_round_trip(v.bits, rest);
    }

    fn byte_len(&self) -> (r: usize) {
        proof {
            lemma_u32_round_trip(self.bits, Seq::empty());
        }
        4
    }

    fn encode(&self, stream: &mut Vec<u8>) -> (r: EncodingResult<usize>) {
        proof {
            lemma_u32_round_trip(self.bits, Seq::empty());
        }
        write_u32(stream, self.bits)
    }

    fn decode(stream: &mut ReadStream, limits: &DecodingLimits) -> (r: EncodingResult<Self>) {
        let bits = read_u32(stream)?;
        Ok(JsonNetworkMessageContentMask { bits })
    }
}

/// The parts of a JSON data set message, one bit each.
#[derive(Debug, Copy, Clone, PartialEq, Eq, Structural)]
pub struct JsonDataSetMessageContentMask {
    pub bits: u32,
}

impl View for JsonDataSetMessageContentMask {
    type V = JsonDataSetMessageContentMask;

    open spec fn view(&self) -> JsonDataSetMessageContentMask {
        *self
    }
}

impl BinaryEncoder for JsonDataSetMessageContentMask {
    /// The bits as a `u32`.
    open spec fn encoding(v: JsonDataSetMessageContentMask) -> Seq<u8> {
        u32_encoding(v.bits)
    }

    open spec fn encodable(v: JsonDataSetMessageContentMask) -> bool {
        true
    }

    open spec fn within(v: JsonDataSetMessageContentMask, limits: DecodingLimits) -> bool {
        true
    }

    open spec fn decoding(s: Seq<u8>, limits: DecodingLimits) -> Result<
        (JsonDataSetMessageContentMask, Seq<u8>),
        StatusCode,
    > {
        match u32_decoding(s) {
            Err(e) => Err(e),
            Ok((bits, s)) => Ok((JsonDataSetMessageContentMask { bits }, s)),
        }
    }

    proof fn lemma_round_trip(v: JsonDataSetMessageContentMask, rest: Seq<u8>, limits: DecodingLimits) {
        lemma_u32_round_trip(v.bits, rest);
    }

    fn byte_len(&self) -> (r: usize) {
        proof {
            lemma_u32_round_trip(self.bits, Seq::empty());
        }
        4
    }

    fn encode(&self, stream: &mut Vec<u8>) -> (r: EncodingResult<usize>) {
        proof {
            lemma_u32_round_trip(self.bits, Seq::empty());
        }
        write_u32(stream, self.bits)
    }

    fn decode(stream: &mut ReadStream, limits: &DecodingLimits) -> (r: EncodingResult<Self>) {
        let bits = read_u32(stream)?;
        Ok(JsonDataSetMessageContentMask { bits })
    }
}

} // verus!
