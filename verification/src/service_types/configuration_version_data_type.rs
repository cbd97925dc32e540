//! The version of the configuration of a data set.

use vstd::prelude::*;
use crate::encoding::{
    BinaryEncoder, DecodingLimits, EncodingResult, ReadStream, add_part_len, lemma_concat_assoc,
    lemma_extends_refl, write_part,
};
use crate::status_codes::StatusCode;

verus! {

/// The version of a configuration, in two parts.
#[derive(Clone, Copy, Debug, PartialEq, Eq)]
pub struct ConfigurationVersionDataType {
    /// Changes with every change that readers have to follow.
    pub major_version: u32,
    /// Changes with every change.
    pub minor_version: u32,
}

/// The value of a `ConfigurationVersionDataType`.
pub struct ConfigurationVersionDataTypeView {
    pub major_version: u32,
    pub minor_version: u32,
}

impl View for ConfigurationVersionDataType {
    type V = ConfigurationVersionDataTypeView;

    open spec fn view(&self) -> ConfigurationVersionDataTypeView {
        ConfigurationVersionDataTypeView {
            major_version: self.major_version,
            minor_version: self.minor_version,
        }
    }
}

/// Wire form of a `ConfigurationVersionDataType`: its fields in the order of their declaration.
pub open spec fn configuration_version_data_type_encoding(v: ConfigurationVersionDataTypeView) -> Seq<u8> {
    u32::encoding(v.major_version) + u32::encoding(v.minor_version)
}

/// A `ConfigurationVersionDataType` off the front of `s`: its fields, one behind the other.
#[verifier::opaque]
pub open spec fn configuration_version_data_type_decoding(s: Seq<u8>, limits: DecodingLimits) -> Result<
    (ConfigurationVersionDataTypeView, Seq<u8>),
    StatusCode,
> {
    match u32::decoding(s, limits) {
        Err(e) => Err(e),
        Ok((major_version, s)) =>
            match u32::decoding(s, limits) {
                Err(e) => Err(e),
                Ok((minor_version, s)) =>
                    Ok((ConfigurationVersionDataTypeView { major_version, minor_version }, s)),
            },
    }
}

impl BinaryEncoder for ConfigurationVersionDataType {
    open spec fn encoding(v: ConfigurationVersionDataTypeView) -> Seq<u8> {
        configuration_version_data_type_encoding(v)
    }

    open spec fn encodable(v: ConfigurationVersionDataTypeView) -> bool {
        true
    }

    open spec fn within(v: ConfigurationVersionDataTypeView, limits: DecodingLimits) -> bool {
        true
    }

    open spec fn decoding(s: Seq<u8>, limits: DecodingLimits) -> Result<
        (ConfigurationVersionDataTypeView, Seq<u8>),
        StatusCode,
    > {
        configuration_version_data_type_decoding(s, limits)
    }

    proof fn lemma_round_trip(v: ConfigurationVersionDataTypeView, rest: Seq<u8>, limits: DecodingLimits) {
        reveal(configuration_version_data_type_decoding);
        let p0 = u32::encoding(v.major_version);
        let p1 = u32::encoding(v.minor_version);
        let r1 = p1 + rest;
        lemma_concat_assoc(p0, p1, rest);
        u32::lemma_round_trip(v.major_version, r1, limits);
        u32::lemma_round_trip(v.minor_version, rest, limits);
    }

    fn byte_len(&self) -> (r: usize) {
        let ghost v = self@;
        let ghost e0 = u32::encoding(v.major_version);
        let ghost e1 = e0 + u32::encoding(v.minor_version);
        let mut size: usize = self.major_version.byte_len();
        size = add_part_len(
            size,
            self.minor_version.byte_len(),
            Ghost(e0),
            Ghost(u32::encoding(v.minor_version)),
        );
        size
    }

    fn encode(&self, stream: &mut Vec<u8>) -> (r: EncodingResult<usize>) {
        let start = stream.len();
        let ghost o = stream@;
        let ghost v = self@;
        proof {
            lemma_extends_refl(o);
        }
        write_part(stream, &self.major_version, Ghost(o))?;
        write_part(stream, &self.minor_version, Ghost(o))?;
        proof {
            let p0 = u32::encoding(v.major_version);
            let p1 = u32::encoding(v.minor_version);
            lemma_concat_assoc(o, p0, p1);
        }
        Ok(stream.len() - start)
    }

    fn decode(stream: &mut ReadStream, limits: &DecodingLimits) -> (r: EncodingResult<Self>) {
        proof {
            reveal(configuration_version_data_type_decoding);
        }
        let major_version = u32::decode(stream, limits)?;
        let minor_version = u32::decode(stream, limits)?;
        Ok(ConfigurationVersionDataType { major_version, minor_version })
    }
}

} // verus!
