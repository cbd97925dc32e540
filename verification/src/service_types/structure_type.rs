//! The kinds of structure.

use vstd::prelude::*;
use crate::encoding::{
    BinaryEncoder, DecodingLimits, EncodingResult, ReadStream, i32_decoding, i32_encoding,
    lemma_i32_round_trip, read_i32, write_i32,
};
use crate::status_codes::StatusCode;

verus! {

/// The kinds of structure.
#[derive(Debug, Copy, Clone, PartialEq, Eq, Structural)]
pub enum StructureType {
    Structure,
    StructureWithOptionalFields,
    Union,
}

impl View for StructureType {
    type V = StructureType;

    open spec fn view(&self) -> StructureType {
        *self
    }
}

impl StructureType {
    /// The number that stands for the value on the wire.
    pub open spec fn spec_value(&self) -> i32 {
        match self {
            StructureType::Structure => 0,
            StructureType::StructureWithOptionalFields => 1,
            StructureType::Union => 2,
        }
    }

    /// The value that a number stands for, if it stands for one.
    pub open spec fn spec_from_i32(value: i32) -> Option<StructureType> {
        if value == 0 {
            Some(StructureType::Structure)
        } else if value == 1 {
            Some(StructureType::StructureWithOptionalFields)
        } else if value == 2 {
            Some(StructureType::Union)
        } else {
            None
        }
    }

    #[verifier::when_used_as_spec(spec_value)]
    pub fn value(&self) -> (r: i32)
        ensures
            r == self.spec_value(),
    {
        match self {
            StructureType::Structure => 0,
            StructureType::StructureWithOptionalFields => 1,
            StructureType::Union => 2,
        }
    }

    #[verifier::when_used_as_spec(spec_from_i32)]
    pub fn from_i32(value: i32) -> (r: Option<StructureType>)
        ensures
            r == Self::spec_from_i32(value),
    {
        match value {
            0 => Some(StructureType::Structure),
            1 => Some(StructureType::StructureWithOptionalFields),
            2 => Some(StructureType::Union),
            _ => None,
        }
    }
}

/// Wire form of a `StructureType`: its number as an `i32`.
pub open spec fn structure_type_encoding(v: StructureType) -> Seq<u8> {
    i32_encoding(v.spec_value())
}

/// A `StructureType` off the front of `s`. A number that stands for no value is
/// refused.
#[verifier::opaque]
pub open spec fn structure_type_decoding(s: Seq<u8>) -> Result<(StructureType, Seq<u8>), StatusCode> {
    match i32_decoding(s) {
        Err(e) => Err(e),
        Ok((value, s)) => match StructureType::spec_from_i32(value) {
            None => Err(StatusCode::BadDecodingError),
            Some(v) => Ok((v, s)),
        },
    }
}

impl BinaryEncoder for StructureType {
    open spec fn encoding(v: StructureType) -> Seq<u8> {
        structure_type_encoding(v)
    }

    open spec fn encodable(v: StructureType) -> bool {
        true
    }

    open spec fn within(v: StructureType, limits: DecodingLimits) -> bool {
        true
    }

    open spec fn decoding(s: Seq<u8>, limits: DecodingLimits) -> Result<
        (StructureType, Seq<u8>),
        StatusCode,
    > {
        structure_type_decoding(s)
    }

    proof fn lemma_round_trip(v: StructureType, rest: Seq<u8>, limits: DecodingLimits) {
        reveal(structure_type_decoding);
        lemma_i32_round_trip(v.spec_value(), rest);
    }

    fn byte_len(&self) -> (r: usize) {
        proof {
            lemma_i32_round_trip(self.spec_value(), Seq::empty());
        }
        4
    }

    fn encode(&self, stream: &mut Vec<u8>) -> (r: EncodingResult<usize>) {
        proof {
            lemma_i32_round_trip(self.spec_value(), Seq::empty());
        }
        write_i32(stream, self.value())
    }

    fn decode(stream: &mut ReadStream, limits: &DecodingLimits) -> (r: EncodingResult<Self>) {
        proof {
            reveal(structure_type_decoding);
        }
        let value = read_i32(stream)?;
        match StructureType::from_i32(value) {
            Some(v) => Ok(v),
            None => Err(StatusCode::BadDecodingError),
        }
    }
}

} // verus!
