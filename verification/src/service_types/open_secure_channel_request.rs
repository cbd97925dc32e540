//! The request that opens or renews a secure channel.

use vstd::prelude::*;
use crate::byte_string::ByteString;
use crate::encoding::{
    BinaryEncoder, DecodingLimits, EncodingResult, ReadStream, add_part_len, lemma_concat_assoc,
    lemma_extends_refl, write_part,
};
use crate::node_ids::ObjectId;
use crate::service_types::{
    MessageInfo, MessageSecurityMode, RequestHeader, RequestHeaderView, SecurityTokenRequestType,
};
use crate::status_codes::StatusCode;

verus! {

/// Opens a secure channel or renews its security token.
#[derive(Clone, Debug, PartialEq, Eq)]
pub struct OpenSecureChannelRequest {
    /// The header of the request.
    pub request_header: RequestHeader,
    /// The version of the protocol that the client speaks.
    pub client_protocol_version: u32,
    /// Whether a token is issued or renewed.
    pub request_type: SecurityTokenRequestType,
    /// How the messages of the channel are protected.
    pub security_mode: MessageSecurityMode,
    /// A random number that is used once.
    pub client_nonce: ByteString,
    /// The lifetime in milliseconds that the client asks for the token.
    pub requested_lifetime: u32,
}

/// The value of a `OpenSecureChannelRequest`.
pub struct OpenSecureChannelRequestView {
    pub request_header: RequestHeaderView,
    pub client_protocol_version: u32,
    pub request_type: SecurityTokenRequestType,
    pub security_mode: MessageSecurityMode,
    pub client_nonce: Option<Seq<u8>>,
    pub requested_lifetime: u32,
}

impl View for OpenSecureChannelRequest {
    type V = OpenSecureChannelRequestView;

    open spec fn view(&self) -> OpenSecureChannelRequestView {
        OpenSecureChannelRequestView {
            request_header: self.request_header@,
            client_protocol_version: self.client_protocol_version,
            request_type: self.request_type,
            security_mode: self.security_mode,
            client_nonce: self.client_nonce@,
            requested_lifetime: self.requested_lifetime,
        }
    }
}

impl MessageInfo for OpenSecureChannelRequest {
    open spec fn message_object_id(&self) -> ObjectId {
        ObjectId::OpenSecureChannelRequest_Encoding_DefaultBinary
    }

    fn object_id(&self) -> (r: ObjectId) {
        ObjectId::OpenSecureChannelRequest_Encoding_DefaultBinary
    }
}

/// Wire form of a `OpenSecureChannelRequest`: its fields in the order of their declaration.
pub open spec fn open_secure_channel_request_encoding(v: OpenSecureChannelRequestView) -> Seq<u8> {
    RequestHeader::encoding(v.request_header) + u32::encoding(v.client_protocol_version)
        + SecurityTokenRequestType::encoding(v.request_type)
        + MessageSecurityMode::encoding(v.security_mode) + ByteString::encoding(v.client_nonce)
        + u32::encoding(v.requested_lifetime)
}

/// A `OpenSecureChannelRequest` off the front of `s`: its fields, one behind the other.
#[verifier::opaque]
pub open spec fn open_secure_channel_request_decoding(s: Seq<u8>, limits: DecodingLimits) -> Result<
    (OpenSecureChannelRequestView, Seq<u8>),
    StatusCode,
> {
    match RequestHeader::decoding(s, limits) {
        Err(e) => Err(e),
        Ok((request_header, s)) =>
            match u32::decoding(s, limits) {
                Err(e) => Err(e),
                Ok((client_protocol_version, s)) =>
                    match SecurityTokenRequestType::decoding(s, limits) {
                        Err(e) => Err(e),
                        Ok((request_type, s)) =>
                            match MessageSecurityMode::decoding(s, limits) {
                                Err(e) => Err(e),
                                Ok((security_mode, s)) =>
                                    match ByteString::decoding(s, limits) {
                                        Err(e) => Err(e),
                                        Ok((client_nonce, s)) =>
                                            match u32::decoding(s, limits) {
                                                Err(e) => Err(e),
                                                Ok((requested_lifetime, s)) =>
                                                    Ok((
                                                        OpenSecureChannelRequestView {
                                                            request_header,
                                                            client_protocol_version,
                                                            request_type,
                                                            security_mode,
                                                            client_nonce,
                                                            requested_lifetime,
                                                        },
                                                        s,
                                                    )),
                                            },
                                    },
                            },
                    },
            },
    }
}

impl BinaryEncoder for OpenSecureChannelRequest {
    open spec fn encoding(v: OpenSecureChannelRequestView) -> Seq<u8> {
        open_secure_channel_request_encoding(v)
    }

    open spec fn encodable(v: OpenSecureChannelRequestView) -> bool {
        &&& RequestHeader::encodable(v.request_header)
        &&& SecurityTokenRequestType::encodable(v.request_type)
        &&& MessageSecurityMode::encodable(v.security_mode)
        &&& ByteString::encodable(v.client_nonce)
    }

    open spec fn within(v: OpenSecureChannelRequestView, limits: DecodingLimits) -> bool {
        &&& RequestHeader::within(v.request_header, limits)
        &&& SecurityTokenRequestType::within(v.request_type, limits)
        &&& MessageSecurityMode::within(v.security_mode, limits)
        &&& ByteString::within(v.client_nonce, limits)
    }

    open spec fn decoding(s: Seq<u8>, limits: DecodingLimits) -> Result<
        (OpenSecureChannelRequestView, Seq<u8>),
        StatusCode,
    > {
        open_secure_channel_request_decoding(s, limits)
    }

    proof fn lemma_round_trip(v: OpenSecureChannelRequestView, rest: Seq<u8>, limits: DecodingLimits) {
        reveal(open_secure_channel_request_decoding);
        let p0 = RequestHeader::encoding(v.request_header);
        let p1 = u32::encoding(v.client_protocol_version);
        let p2 = SecurityTokenRequestType::encoding(v.request_type);
        let p3 = MessageSecurityMode::encoding(v.security_mode);
        let p4 = ByteString::encoding(v.client_nonce);
        let p5 = u32::encoding(v.requested_lifetime);
        let r5 = p5 + rest;
        let r4 = p4 + r5;
        let r3 = p3 + r4;
        let r2 = p2 + r3;
        let r1 = p1 + r2;
        lemma_concat_assoc(p0 + p1 + p2 + p3 + p4, p5, rest);
        lemma_concat_assoc(p0 + p1 + p2 + p3, p4, r5);
        lemma_concat_assoc(p0 + p1 + p2, p3, r4);
        lemma_concat_assoc(p0 + p1, p2, r3);
        lemma_concat_assoc(p0, p1, r2);
        RequestHeader::lemma_round_trip(v.request_header, r1, limits);
        u32::lemma_round_trip(v.client_protocol_version, r2, limits);
        SecurityTokenRequestType::lemma_round_trip(v.request_type, r3, limits);
        MessageSecurityMode::lemma_round_trip(v.security_mode, r4, limits);
        ByteString::lemma_round_trip(v.client_nonce, r5, limits);
        u32::lemma_round_trip(v.requested_lifetime, rest, limits);
    }

    fn byte_len(&self) -> (r: usize) {
        let ghost v = self@;
        let ghost e0 = RequestHeader::encoding(v.request_header);
        let ghost e1 = e0 + u32::encoding(v.client_protocol_version);
        let ghost e2 = e1 + SecurityTokenRequestType::encoding(v.request_type);
        let ghost e3 = e2 + MessageSecurityMode::encoding(v.security_mode);
        let ghost e4 = e3 + ByteString::encoding(v.client_nonce);
        let ghost e5 = e4 + u32::encoding(v.requested_lifetime);
        let mut size: usize = self.request_header.byte_len();
        size = add_part_len(
            size,
            self.client_protocol_version.byte_len(),
            Ghost(e0),
            Ghost(u32::encoding(v.client_protocol_version)),
        );
        size = add_part_len(
            size,
            self.request_type.byte_len(),
            Ghost(e1),
            Ghost(SecurityTokenRequestType::encoding(v.request_type)),
        );
        size = add_part_len(
            size,
            self.security_mode.byte_len(),
            Ghost(e2),
            Ghost(MessageSecurityMode::encoding(v.security_mode)),
        );
        size = add_part_len(
            size,
            self.client_nonce.byte_len(),
            Ghost(e3),
            Ghost(ByteString::encoding(v.client_nonce)),
        );
        size = add_part_len(
            size,
            self.requested_lifetime.byte_len(),
            Ghost(e4),
            Ghost(u32::encoding(v.requested_lifetime)),
        );
        size
    }

    fn encode(&self, stream: &mut Vec<u8>) -> (r: EncodingResult<usize>) {
        let start = stream.len();
        let ghost o = stream@;
        let ghost v = self@;
        proof {
            lemma_extends_refl(o);
        }
        write_part(stream, &self.request_header, Ghost(o))?;
        write_part(stream, &self.client_protocol_version, Ghost(o))?;
        write_part(stream, &self.request_type, Ghost(o))?;
        write_part(stream, &self.security_mode, Ghost(o))?;
        write_part(stream, &self.client_nonce, Ghost(o))?;
        write_part(stream, &self.requested_lifetime, Ghost(o))?;
        proof {
            let p0 = RequestHeader::encoding(v.request_header);
            let p1 = u32::encoding(v.client_protocol_version);
            let p2 = SecurityTokenRequestType::encoding(v.request_type);
            let p3 = MessageSecurityMode::encoding(v.security_mode);
            let p4 = ByteString::encoding(v.client_nonce);
            let p5 = u32::encoding(v.requested_lifetime);
            lemma_concat_assoc(o, p0, p1);
            lemma_concat_assoc(o, p0 + p1, p2);
            lemma_concat_assoc(o, p0 + p1 + p2, p3);
            lemma_concat_assoc(o, p0 + p1 + p2 + p3, p4);
            lemma_concat_assoc(o, p0 + p1 + p2 + p3 + p4, p5);
        }
        Ok(stream.len() - start)
    }

    fn decode(stream: &mut ReadStream, limits: &DecodingLimits) -> (r: EncodingResult<Self>) {
        proof {
            reveal(open_secure_channel_request_decoding);
        }
        let request_header = RequestHeader::decode(stream, limits)?;
        let client_protocol_version = u32::decode(stream, limits)?;
        let request_type = SecurityTokenRequestType::decode(stream, limits)?;
        let security_mode = MessageSecurityMode::decode(stream, limits)?;
        let client_nonce = ByteString::decode(stream, limits)?;
        let requested_lifetime = u32::decode(stream, limits)?;
        Ok(
            OpenSecureChannelRequest {
                request_header,
                client_protocol_version,
                request_type,
                security_mode,
                client_nonce,
                requested_lifetime,
            },
        )
    }
}

} // verus!
