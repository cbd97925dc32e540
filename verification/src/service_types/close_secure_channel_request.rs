//! The request that closes a secure channel.

use vstd::prelude::*;
use crate::encoding::{
    BinaryEncoder, DecodingLimits, EncodingResult, ReadStream, lemma_extends_refl, write_part,
};
use crate::node_ids::ObjectId;
use crate::service_types::{MessageInfo, RequestHeader, RequestHeaderView};
use crate::status_codes::StatusCode;

verus! {

/// Closes a secure channel.
#[derive(Clone, Debug, PartialEq, Eq)]
pub struct CloseSecureChannelRequest {
    /// The header of the request.
    pub request_header: RequestHeader,
}

/// The value of a `CloseSecureChannelRequest`.
pub struct CloseSecureChannelRequestView {
    pub request_header: RequestHeaderView,
}

impl View for CloseSecureChannelRequest {
    type V = CloseSecureChannelRequestView;

    open spec fn view(&self) -> CloseSecureChannelRequestView {
        CloseSecureChannelRequestView {
            request_header: self.request_header@,
        }
    }
}

impl MessageInfo for CloseSecureChannelRequest {
    open spec fn message_object_id(&self) -> ObjectId {
        ObjectId::CloseSecureChannelRequest_Encoding_DefaultBinary
    }

    fn object_id(&self) -> (r: ObjectId) {
        ObjectId::CloseSecureChannelRequest_Encoding_DefaultBinary
    }
}

/// Wire form of a `CloseSecureChannelRequest`: its fields in the order of their declaration.
pub open spec fn close_secure_channel_request_encoding(v: CloseSecureChannelRequestView) -> Seq<u8> {
    RequestHeader::encoding(v.request_header)
}

/// A `CloseSecureChannelRequest` off the front of `s`: its fields, one behind the other.
#[verifier::opaque]
pub open spec fn close_secure_channel_request_decoding(s: Seq<u8>, limits: DecodingLimits) -> Result<
    (CloseSecureChannelRequestView, Seq<u8>),
    StatusCode,
> {
    match RequestHeader::decoding(s, limits) {
        Err(e) => Err(e),
        Ok((request_header, s)) =>
            Ok((CloseSecureChannelRequestView { request_header }, s)),
    }
}

impl BinaryEncoder for CloseSecureChannelRequest {
    open spec fn encoding(v: CloseSecureChannelRequestView) -> Seq<u8> {
        close_secure_channel_request_encoding(v)
    }

    open spec fn encodable(v: CloseSecureChannelRequestView) -> bool {
        &&& RequestHeader::encodable(v.request_header)
    }

    open spec fn within(v: CloseSecureChannelRequestView, limits: DecodingLimits) -> bool {
        &&& RequestHeader::within(v.request_header, limits)
    }

    open spec fn decoding(s: Seq<u8>, limits: DecodingLimits) -> Result<
        (CloseSecureChannelRequestView, Seq<u8>),
        StatusCode,
    > {
        close_secure_channel_request_decoding(s, limits)
    }

    proof fn lemma_round_trip(v: CloseSecureChannelRequestView, rest: Seq<u8>, limits: DecodingLimits) {
        reveal(close_secure_channel_request_decoding);
        let p0 = RequestHeader::encoding(v.request_header);
        RequestHeader::lemma_round_trip(v.request_header, rest, limits);
    }

    fn byte_len(&self) -> (r: usize) {
        self.request_header.byte_len()
    }

    fn encode(&self, stream: &mut Vec<u8>) -> (r: EncodingResult<usize>) {
        let start = stream.len();
        let ghost o = stream@;
        let ghost v = self@;
        proof {
            lemma_extends_refl(o);
        }
        write_part(stream, &self.request_header, Ghost(o))?;
        Ok(stream.len() - start)
    }

    fn decode(stream: &mut ReadStream, limits: &DecodingLimits) -> (r: EncodingResult<Self>) {
        proof {
            reveal(close_secure_channel_request_decoding);
        }
        let request_header = RequestHeader::decode(stream, limits)?;
        Ok(CloseSecureChannelRequest { request_header })
    }
}

} // verus!
