//! Status codes carried in responses and returned by failing operations.

use vstd::prelude::*;
use crate::encoding::{
    BinaryEncoder, DecodingLimits, EncodingResult, ReadStream, lemma_u32_round_trip, read_u32,
    u32_decoding, u32_encoding, write_u32,
};

verus! {

/// The status codes this stack produces and understands. On the wire a status
/// code is a 32 bit number whose two top bits give the severity: `00` is good,
/// `01` uncertain, `10` and `11` bad.
#[derive(Clone, Copy, Debug, PartialEq, Eq, Structural)]
pub enum StatusCode {
    Good,
    UncertainInitialValue,
    BadUnexpectedError,
    BadInternalError,
    BadOutOfMemory,
    BadResourceUnavailable,
    BadCommunicationError,
    BadEncodingError,
    BadDecodingError,
    BadEncodingLimitsExceeded,
    BadUnknownResponse,
    BadTimeout,
    BadServiceUnsupported,
    BadShutdown,
    BadServerNotConnected,
    BadServerHalted,
    BadNothingToDo,
    BadTooManyOperations,
    BadDataTypeIdUnknown,
    BadCertificateInvalid,
    BadSecurityChecksFailed,
    BadSecureChannelIdInvalid,
    BadSessionIdInvalid,
    BadSessionClosed,
    BadTimestampsToReturnInvalid,
    BadNodeIdInvalid,
    BadNodeIdUnknown,
    BadAttributeIdInvalid,
    BadNotReadable,
    BadNotWritable,
    BadOutOfRange,
    BadNotSupported,
    BadNotFound,
    BadBrowseDirectionInvalid,
    BadNodeClassInvalid,
    BadTypeMismatch,
    BadTcpServerTooBusy,
    BadTcpMessageTypeInvalid,
    BadTcpSecureChannelUnknown,
    BadTcpMessageTooLarge,
    BadTcpNotEnoughResources,
    BadTcpInternalError,
    BadTcpEndpointUrlInvalid,
    BadConnectionClosed,
    BadInvalidState,
    BadProtocolVersionUnsupported,
    BadFilterOperatorInvalid,
}

impl StatusCode {
    /// The number that stands for this status code on the wire.
    pub open spec fn spec_bits(&self) -> u32 {
        match self {
            StatusCode::Good => 0x0000_0000,
            StatusCode::UncertainInitialValue => 0x4092_0000,
            StatusCode::BadUnexpectedError => 0x8001_0000,
            StatusCode::BadInternalError => 0x8002_0000,
            StatusCode::BadOutOfMemory => 0x8003_0000,
            StatusCode::BadResourceUnavailable => 0x8004_0000,
            StatusCode::BadCommunicationError => 0x8005_0000,
            StatusCode::BadEncodingError => 0x8006_0000,
            StatusCode::BadDecodingError => 0x8007_0000,
            StatusCode::BadEncodingLimitsExceeded => 0x8008_0000,
            StatusCode::BadUnknownResponse => 0x8009_0000,
            StatusCode::BadTimeout => 0x800A_0000,
            StatusCode::BadServiceUnsupported => 0x800B_0000,
            StatusCode::BadShutdown => 0x800C_0000,
            StatusCode::BadServerNotConnected => 0x800D_0000,
            StatusCode::BadServerHalted => 0x800E_0000,
            StatusCode::BadNothingToDo => 0x800F_0000,
            StatusCode::BadTooManyOperations => 0x8010_0000,
            StatusCode::BadDataTypeIdUnknown => 0x8011_0000,
            StatusCode::BadCertificateInvalid => 0x8012_0000,
            StatusCode::BadSecurityChecksFailed => 0x8013_0000,
            StatusCode::BadSecureChannelIdInvalid => 0x8022_0000,
            StatusCode::BadSessionIdInvalid => 0x8025_0000,
            StatusCode::BadSessionClosed => 0x8026_0000,
            StatusCode::BadTimestampsToReturnInvalid => 0x802B_0000,
            StatusCode::BadNodeIdInvalid => 0x8033_0000,
            StatusCode::BadNodeIdUnknown => 0x8034_0000,
            StatusCode::BadAttributeIdInvalid => 0x8035_0000,
            StatusCode::BadNotReadable => 0x803A_0000,
            StatusCode::BadNotWritable => 0x803B_0000,
            StatusCode::BadOutOfRange => 0x803C_0000,
            StatusCode::BadNotSupported => 0x803D_0000,
            StatusCode::BadNotFound => 0x803E_0000,
            StatusCode::BadBrowseDirectionInvalid => 0x804D_0000,
            StatusCode::BadNodeClassInvalid => 0x805F_0000,
            StatusCode::BadTypeMismatch => 0x8074_0000,
            StatusCode::BadTcpServerTooBusy => 0x807D_0000,
            StatusCode::BadTcpMessageTypeInvalid => 0x807E_0000,
            StatusCode::BadTcpSecureChannelUnknown => 0x807F_0000,
            StatusCode::BadTcpMessageTooLarge => 0x8080_0000,
            StatusCode::BadTcpNotEnoughResources => 0x8081_0000,
            StatusCode::BadTcpInternalError => 0x8082_0000,
            StatusCode::BadTcpEndpointUrlInvalid => 0x8083_0000,
            StatusCode::BadConnectionClosed => 0x80AE_0000,
            StatusCode::BadInvalidState => 0x80AF_0000,
            StatusCode::BadProtocolVersionUnsupported => 0x80BE_0000,
            StatusCode::BadFilterOperatorInvalid => 0x80C1_0000,
        }
    }

    /// The status code that a wire number stands for, if it is one of the table.
    pub open spec fn spec_from_u32(bits: u32) -> Option<StatusCode> {
        if bits == 0x0000_0000 {
            Some(StatusCode::Good)
        }         else if bits == 0x4092_0000 {
            Some(StatusCode::UncertainInitialValue)
        }         else if bits == 0x8001_0000 {
            Some(StatusCode::BadUnexpectedError)
        }         else if bits == 0x8002_0000 {
            Some(StatusCode::BadInternalError)
        }         else if bits == 0x8003_0000 {
            Some(StatusCode::BadOutOfMemory)
        }         else if bits == 0x8004_0000 {
            Some(StatusCode::BadResourceUnavailable)
        }         else if bits == 0x8005_0000 {
            Some(StatusCode::BadCommunicationError)
        }         else if bits == 0x8006_0000 {
            Some(StatusCode::BadEncodingError)
        }         else if bits == 0x8007_0000 {
            Some(StatusCode::BadDecodingError)
        }         else if bits == 0x8008_0000 {
            Some(StatusCode::BadEncodingLimitsExceeded)
        }         else if bits == 0x8009_0000 {
            Some(StatusCode::BadUnknownResponse)
        }         else if bits == 0x800A_0000 {
            Some(StatusCode::BadTimeout)
        }         else if bits == 0x800B_0000 {
            Some(StatusCode::BadServiceUnsupported)
        }         else if bits == 0x800C_0000 {
            Some(StatusCode::BadShutdown)
        }         else if bits == 0x800D_0000 {
            Some(StatusCode::BadServerNotConnected)
        }         else if bits == 0x800E_0000 {
            Some(StatusCode::BadServerHalted)
        }         else if bits == 0x800F_0000 {
            Some(StatusCode::BadNothingToDo)
        }         else if bits == 0x8010_0000 {
            Some(StatusCode::BadTooManyOperations)
        }         else if bits == 0x8011_0000 {
            Some(StatusCode::BadDataTypeIdUnknown)
        }         else if bits == 0x8012_0000 {
            Some(StatusCode::BadCertificateInvalid)
        }         else if bits == 0x8013_0000 {
            Some(StatusCode::BadSecurityChecksFailed)
        }         else if bits == 0x8022_0000 {
            Some(StatusCode::BadSecureChannelIdInvalid)
        }         else if bits == 0x8025_0000 {
            Some(StatusCode::BadSessionIdInvalid)
        }         else if bits == 0x8026_0000 {
            Some(StatusCode::BadSessionClosed)
        }         else if bits == 0x802B_0000 {
            Some(StatusCode::BadTimestampsToReturnInvalid)
        }         else if bits == 0x8033_0000 {
            Some(StatusCode::BadNodeIdInvalid)
        }         else if bits == 0x8034_0000 {
            Some(StatusCode::BadNodeIdUnknown)
        }         else if bits == 0x8035_0000 {
            Some(StatusCode::BadAttributeIdInvalid)
        }         else if bits == 0x803A_0000 {
            Some(StatusCode::BadNotReadable)
        }         else if bits == 0x803B_0000 {
            Some(StatusCode::BadNotWritable)
        }         else if bits == 0x803C_0000 {
            Some(StatusCode::BadOutOfRange)
        }         else if bits == 0x803D_0000 {
            Some(StatusCode::BadNotSupported)
        }         else if bits == 0x803E_0000 {
            Some(StatusCode::BadNotFound)
        }         else if bits == 0x804D_0000 {
            Some(StatusCode::BadBrowseDirectionInvalid)
        }         else if bits == 0x805F_0000 {
            Some(StatusCode::BadNodeClassInvalid)
        }         else if bits == 0x8074_0000 {
            Some(StatusCode::BadTypeMismatch)
        }         else if bits == 0x807D_0000 {
            Some(StatusCode::BadTcpServerTooBusy)
        }         else if bits == 0x807E_0000 {
            Some(StatusCode::BadTcpMessageTypeInvalid)
        }         else if bits == 0x807F_0000 {
            Some(StatusCode::BadTcpSecureChannelUnknown)
        }         else if bits == 0x8080_0000 {
            Some(StatusCode::BadTcpMessageTooLarge)
        }         else if bits == 0x8081_0000 {
            Some(StatusCode::BadTcpNotEnoughResources)
        }         else if bits == 0x8082_0000 {
            Some(StatusCode::BadTcpInternalError)
        }         else if bits == 0x8083_0000 {
            Some(StatusCode::BadTcpEndpointUrlInvalid)
        }         else if bits == 0x80AE_0000 {
            Some(StatusCode::BadConnectionClosed)
        }         else if bits == 0x80AF_0000 {
            Some(StatusCode::BadInvalidState)
        }         else if bits == 0x80BE_0000 {
            Some(StatusCode::BadProtocolVersionUnsupported)
        }         else if bits == 0x80C1_0000 {
            Some(StatusCode::BadFilterOperatorInvalid)
        } else {
            None
        }
    }

    /// The severity is bad: the operation failed.
    pub open spec fn spec_is_bad(&self) -> bool {
        self.spec_bits() >= 0x8000_0000
    }

    /// The severity is uncertain.
    pub open spec fn spec_is_uncertain(&self) -> bool {
        0x4000_0000 <= self.spec_bits() < 0x8000_0000
    }

    /// The severity is good: neither bad nor uncertain.
    pub open spec fn spec_is_good(&self) -> bool {
        self.spec_bits() < 0x4000_0000
    }

    #[verifier::when_used_as_spec(spec_bits)]
    pub fn bits(&self) -> (r: u32)
        ensures
            r == self.spec_bits(),
    {
        match self {
            StatusCode::Good => 0x0000_0000,
            StatusCode::UncertainInitialValue => 0x4092_0000,
            StatusCode::BadUnexpectedError => 0x8001_0000,
            StatusCode::BadInternalError => 0x8002_0000,
            StatusCode::BadOutOfMemory => 0x8003_0000,
            StatusCode::BadResourceUnavailable => 0x8004_0000,
            StatusCode::BadCommunicationError => 0x8005_0000,
            StatusCode::BadEncodingError => 0x8006_0000,
            StatusCode::BadDecodingError => 0x8007_0000,
            StatusCode::BadEncodingLimitsExceeded => 0x8008_0000,
            StatusCode::BadUnknownResponse => 0x8009_0000,
            StatusCode::BadTimeout => 0x800A_0000,
            StatusCode::BadServiceUnsupported => 0x800B_0000,
            StatusCode::BadShutdown => 0x800C_0000,
            StatusCode::BadServerNotConnected => 0x800D_0000,
            StatusCode::BadServerHalted => 0x800E_0000,
            StatusCode::BadNothingToDo => 0x800F_0000,
            StatusCode::BadTooManyOperations => 0x8010_0000,
            StatusCode::BadDataTypeIdUnknown => 0x8011_0000,
            StatusCode::BadCertificateInvalid => 0x8012_0000,
            StatusCode::BadSecurityChecksFailed => 0x8013_0000,
            StatusCode::BadSecureChannelIdInvalid => 0x8022_0000,
            StatusCode::BadSessionIdInvalid => 0x8025_0000,
            StatusCode::BadSessionClosed => 0x8026_0000,
            StatusCode::BadTimestampsToReturnInvalid => 0x802B_0000,
            StatusCode::BadNodeIdInvalid => 0x8033_0000,
            StatusCode::BadNodeIdUnknown => 0x8034_0000,
            StatusCode::BadAttributeIdInvalid => 0x8035_0000,
            StatusCode::BadNotReadable => 0x803A_0000,
            StatusCode::BadNotWritable => 0x803B_0000,
            StatusCode::BadOutOfRange => 0x803C_0000,
            StatusCode::BadNotSupported => 0x803D_0000,
            StatusCode::BadNotFound => 0x803E_0000,
            StatusCode::BadBrowseDirectionInvalid => 0x804D_0000,
            StatusCode::BadNodeClassInvalid => 0x805F_0000,
            StatusCode::BadTypeMismatch => 0x8074_0000,
            StatusCode::BadTcpServerTooBusy => 0x807D_0000,
            StatusCode::BadTcpMessageTypeInvalid => 0x807E_0000,
            StatusCode::BadTcpSecureChannelUnknown => 0x807F_0000,
            StatusCode::BadTcpMessageTooLarge => 0x8080_0000,
            StatusCode::BadTcpNotEnoughResources => 0x8081_0000,
            StatusCode::BadTcpInternalError => 0x8082_0000,
            StatusCode::BadTcpEndpointUrlInvalid => 0x8083_0000,
            StatusCode::BadConnectionClosed => 0x80AE_0000,
            StatusCode::BadInvalidState => 0x80AF_0000,
            StatusCode::BadProtocolVersionUnsupported => 0x80BE_0000,
            StatusCode::BadFilterOperatorInvalid => 0x80C1_0000,
        }
    }

    #[verifier::when_used_as_spec(spec_from_u32)]
    pub fn from_u32(bits: u32) -> (r: Option<StatusCode>)
        ensures
            r == Self::spec_from_u32(bits),
    {
        if bits == 0x0000_0000 {
            Some(StatusCode::Good)
        }         else if bits == 0x4092_0000 {
            Some(StatusCode::UncertainInitialValue)
        }         else if bits == 0x8001_0000 {
            Some(StatusCode::BadUnexpectedError)
        }         else if bits == 0x8002_0000 {
            Some(StatusCode::BadInternalError)
        }         else if bits == 0x8003_0000 {
            Some(StatusCode::BadOutOfMemory)
        }         else if bits == 0x8004_0000 {
            Some(StatusCode::BadResourceUnavailable)
        }         else if bits == 0x8005_0000 {
            Some(StatusCode::BadCommunicationError)
        }         else if bits == 0x8006_0000 {
            Some(StatusCode::BadEncodingError)
        }         else if bits == 0x8007_0000 {
            Some(StatusCode::BadDecodingError)
        }         else if bits == 0x8008_0000 {
            Some(StatusCode::BadEncodingLimitsExceeded)
        }         else if bits == 0x8009_0000 {
            Some(StatusCode::BadUnknownResponse)
        }         else if bits == 0x800A_0000 {
            Some(StatusCode::BadTimeout)
        }         else if bits == 0x800B_0000 {
            Some(StatusCode::BadServiceUnsupported)
        }         else if bits == 0x800C_0000 {
            Some(StatusCode::BadShutdown)
        }         else if bits == 0x800D_0000 {
            Some(StatusCode::BadServerNotConnected)
        }         else if bits == 0x800E_0000 {
            Some(StatusCode::BadServerHalted)
        }         else if bits == 0x800F_0000 {
            Some(StatusCode::BadNothingToDo)
        }         else if bits == 0x8010_0000 {
            Some(StatusCode::BadTooManyOperations)
        }         else if bits == 0x8011_0000 {
            Some(StatusCode::BadDataTypeIdUnknown)
        }         else if bits == 0x8012_0000 {
            Some(StatusCode::BadCertificateInvalid)
        }         else if bits == 0x8013_0000 {
            Some(StatusCode::BadSecurityChecksFailed)
        }         else if bits == 0x8022_0000 {
            Some(StatusCode::BadSecureChannelIdInvalid)
        }         else if bits == 0x8025_0000 {
            Some(StatusCode::BadSessionIdInvalid)
        }         else if bits == 0x8026_0000 {
            Some(StatusCode::BadSessionClosed)
        }         else if bits == 0x802B_0000 {
            Some(StatusCode::BadTimestampsToReturnInvalid)
        }         else if bits == 0x8033_0000 {
            Some(StatusCode::BadNodeIdInvalid)
        }         else if bits == 0x8034_0000 {
            Some(StatusCode::BadNodeIdUnknown)
        }         else if bits == 0x8035_0000 {
            Some(StatusCode::BadAttributeIdInvalid)
        }         else if bits == 0x803A_0000 {
            Some(StatusCode::BadNotReadable)
        }         else if bits == 0x803B_0000 {
            Some(StatusCode::BadNotWritable)
        }         else if bits == 0x803C_0000 {
            Some(StatusCode::BadOutOfRange)
        }         else if bits == 0x803D_0000 {
            Some(StatusCode::BadNotSupported)
        }         else if bits == 0x803E_0000 {
            Some(StatusCode::BadNotFound)
        }         else if bits == 0x804D_0000 {
            Some(StatusCode::BadBrowseDirectionInvalid)
        }         else if bits == 0x805F_0000 {
            Some(StatusCode::BadNodeClassInvalid)
        }         else if bits == 0x8074_0000 {
            Some(StatusCode::BadTypeMismatch)
        }         else if bits == 0x807D_0000 {
            Some(StatusCode::BadTcpServerTooBusy)
        }         else if bits == 0x807E_0000 {
            Some(StatusCode::BadTcpMessageTypeInvalid)
        }         else if bits == 0x807F_0000 {
            Some(StatusCode::BadTcpSecureChannelUnknown)
        }         else if bits == 0x8080_0000 {
            Some(StatusCode::BadTcpMessageTooLarge)
        }         else if bits == 0x8081_0000 {
            Some(StatusCode::BadTcpNotEnoughResources)
        }         else if bits == 0x8082_0000 {
            Some(StatusCode::BadTcpInternalError)
        }         else if bits == 0x8083_0000 {
            Some(StatusCode::BadTcpEndpointUrlInvalid)
        }         else if bits == 0x80AE_0000 {
            Some(StatusCode::BadConnectionClosed)
        }         else if bits == 0x80AF_0000 {
            Some(StatusCode::BadInvalidState)
        }         else if bits == 0x80BE_0000 {
            Some(StatusCode::BadProtocolVersionUnsupported)
        }         else if bits == 0x80C1_0000 {
            Some(StatusCode::BadFilterOperatorInvalid)
        } else {
            None
        }
    }

    #[verifier::when_used_as_spec(spec_is_bad)]
    pub fn is_bad(&self) -> (r: bool)
        ensures
            r == self.spec_is_bad(),
    {
        self.bits() >= 0x8000_0000
    }

    #[verifier::when_used_as_spec(spec_is_uncertain)]
    pub fn is_uncertain(&self) -> (r: bool)
        ensures
            r == self.spec_is_uncertain(),
    {
        let bits: u32 = self.bits();
        bits >= 0x4000_0000 && bits < 0x8000_0000
    }

    #[verifier::when_used_as_spec(spec_is_good)]
    pub fn is_good(&self) -> (r: bool)
        ensures
            r == self.spec_is_good(),
    {
        self.bits() < 0x4000_0000
    }

    /// Every status code is found again from its wire number.
    pub proof fn lemma_from_bits(self)
        ensures
            Self::spec_from_u32(self.spec_bits()) == Some(self),
    {
    }

    /// A wire number of the table gives the status code with that number.
    pub proof fn lemma_bits_from(bits: u32)
        ensures
            Self::spec_from_u32(bits) matches Some(c) ==> c.spec_bits() == bits,
    {
    }
}

impl View for StatusCode {
    type V = StatusCode;

    open spec fn view(&self) -> StatusCode {
        *self
    }
}

/// Wire form of a status code: its number as a `u32`.
#[verifier::opaque]
pub open spec fn status_code_encoding(v: StatusCode) -> Seq<u8> {
    u32_encoding(v.spec_bits())
}

/// A status code off the front of `s`. A number that is not in the table is
/// malformed.
#[verifier::opaque]
pub open spec fn status_code_decoding(s: Seq<u8>) -> Result<(StatusCode, Seq<u8>), StatusCode> {
    match u32_decoding(s) {
        Err(e) => Err(e),
        Ok((bits, s)) => match StatusCode::spec_from_u32(bits) {
            None => Err(StatusCode::BadDecodingError),
            Some(code) => Ok((code, s)),
        },
    }
}

impl BinaryEncoder for StatusCode {
    open spec fn encoding(v: StatusCode) -> Seq<u8> {
        status_code_encoding(v)
    }

    open spec fn encodable(v: StatusCode) -> bool {
        true
    }

    open spec fn within(v: StatusCode, limits: DecodingLimits) -> bool {
        true
    }

    open spec fn decoding(s: Seq<u8>, limits: DecodingLimits) -> Result<
        (StatusCode, Seq<u8>),
        StatusCode,
    > {
        status_code_decoding(s)
    }

    proof fn lemma_round_trip(v: StatusCode, rest: Seq<u8>, limits: DecodingLimits) {
        reveal(status_code_decoding);
        reveal(status_code_encoding);
        lemma_u32_round_trip(v.spec_bits(), rest);
        v.lemma_from_bits();
    }

    fn byte_len(&self) -> (r: usize) {
        proof {
            reveal(status_code_encoding);
            lemma_u32_round_trip(self.spec_bits(), Seq::empty());
        }
        4
    }

    fn encode(&self, stream: &mut Vec<u8>) -> (r: EncodingResult<usize>) {
        proof {
            reveal(status_code_encoding);
            lemma_u32_round_trip(self.spec_bits(), Seq::empty());
        }
        write_u32(stream, self.bits())
    }

    fn decode(stream: &mut ReadStream, limits: &DecodingLimits) -> (r: EncodingResult<Self>) {
        proof {
            reveal(status_code_decoding);
        }
        let bits = read_u32(stream)?;
        match StatusCode::from_u32(bits) {
            Some(code) => Ok(code),
            None => Err(StatusCode::BadDecodingError),
        }
    }
}

} // verus!
