//! The request that closes a session.

use vstd::prelude::*;
use crate::encoding::{
    BinaryEncoder, DecodingLimits, EncodingResult, ReadStream, add_part_len, lemma_concat_assoc,
    lemma_extends_refl, write_part,
};
use crate::node_ids::ObjectId;
use crate::service_types::{MessageInfo, RequestHeader, RequestHeaderView};
use crate::status_codes::StatusCode;

verus! {

/// Closes a session with the server.
#[derive(Clone, Debug, PartialEq, Eq)]
pub struct CloseSessionRequest {
    /// The header of the request.
    pub request_header: RequestHeader,
    /// Whether the subscriptions of the session are deleted with it.
    pub delete_subscriptions: bool,
}

/// The value of a `CloseSessionRequest`.
pub struct CloseSessionRequestView {
    pub request_header: RequestHeaderView,
    pub delete_subscriptions: bool,
}

impl View for CloseSessionRequest {
    type V = CloseSessionRequestView;

    open spec fn view(&self) -> CloseSessionRequestView {
        CloseSessionRequestView {
            request_header: self.request_header@,
            delete_subscriptions: self.delete_subscriptions,
        }
    }
}

impl MessageInfo for CloseSessionRequest {
    open spec fn message_object_id(&self) -> ObjectId {
        ObjectId::CloseSessionRequest_Encoding_DefaultBinary
    }

    fn object_id(&self) -> (r: ObjectId) {
        ObjectId::CloseSessionRequest_Encoding_DefaultBinary
    }
}

/// Wire form of a `CloseSessionRequest`: its fields in the order of their declaration.
pub open spec fn close_session_request_encoding(v: CloseSessionRequestView) -> Seq<u8> {
    RequestHeader::encoding(v.request_header) + bool::encoding(v.delete_subscriptions)
}

/// A `CloseSessionRequest` off the front of `s`: its fields, one behind the other.
#[verifier::opaque]
pub open spec fn close_session_request_decoding(s: Seq<u8>, limits: DecodingLimits) -> Result<
    (CloseSessionRequestView, Seq<u8>),
    StatusCode,
> {
    match RequestHeader::decoding(s, limits) {
        Err(e) => Err(e),
        Ok((request_header, s)) =>
            match bool::decoding(s, limits) {
                Err(e) => Err(e),
                Ok((delete_subscriptions, s)) =>
                    Ok((CloseSessionRequestView { request_header, delete_subscriptions }, s)),
            },
    }
}

impl BinaryEncoder for CloseSessionRequest {
    open spec fn encoding(v: CloseSessionRequestView) -> Seq<u8> {
        close_session_request_encoding(v)
    }

    open spec fn encodable(v: CloseSessionRequestView) -> bool {
        &&& RequestHeader::encodable(v.request_header)
    }

    open spec fn within(v: CloseSessionRequestView, limits: DecodingLimits) -> bool {
        &&& RequestHeader::within(v.request_header, limits)
    }

    open spec fn decoding(s: Seq<u8>, limits: DecodingLimits) -> Result<
        (CloseSessionRequestView, Seq<u8>),
        StatusCode,
    > {
        close_session_request_decoding(s, limits)
    }

    proof fn lemma_round_trip(v: CloseSessionRequestView, rest: Seq<u8>, limits: DecodingLimits) {
        reveal(close_session_request_decoding);
        let p0 = RequestHeader::encoding(v.request_header);
        let p1 = bool::encoding(v.delete_subscriptions);
        let r1 = p1 + rest;
        lemma_concat_assoc(p0, p1, rest);
        RequestHeader::lemma_round_trip(v.request_header, r1, limits);
        bool::lemma_round_trip(v.delete_subscriptions, rest, limits);
    }

    fn byte_len(&self) -> (r: usize) {
        let ghost v = self@;
        let ghost e0 = RequestHeader::encoding(v.request_header);
        let ghost e1 = e0 + bool::encoding(v.delete_subscriptions);
        let mut size: usize = self.request_header.byte_len();
        size = add_part_len(
            size,
            self.delete_subscriptions.byte_len(),
            Ghost(e0),
            Ghost(bool::encoding(v.delete_subscriptions)),
        );
        size
    }

    fn encode(&self, stream: &mut Vec<u8>) -> (r: EncodingResult<usize>) {
        let start = stream.len();
        let ghost o = stream@;
        let ghost v = self@;
        proof {
            lemma_extends_refl(o);
        }
        write_part(stream, &self.request_header, Ghost(o))?;
        write_part(stream, &self.delete_subscriptions, Ghost(o))?;
        proof {
            let p0 = RequestHeader::encoding(v.request_header);
            let p1 = bool::encoding(v.delete_subscriptions);
            lemma_concat_assoc(o, p0, p1);
        }
        Ok(stream.len() - start)
    }

    fn decode(stream: &mut ReadStream, limits: &DecodingLimits) -> (r: EncodingResult<Self>) {
        proof {
            reveal(close_session_request_decoding);
        }
        let request_header = RequestHeader::decode(stream, limits)?;
        let delete_subscriptions = bool::decode(stream, limits)?;
        Ok(CloseSessionRequest { request_header, delete_subscriptions })
    }
}

} // verus!
