//! The response to a request that opens or renews a secure channel.

use vstd::prelude::*;
use crate::byte_string::ByteString;
use crate::encoding::{
    BinaryEncoder, DecodingLimits, EncodingResult, ReadStream, add_part_len, lemma_concat_assoc,
    lemma_extends_refl, write_part,
};
use crate::node_ids::ObjectId;
use crate::service_types::{MessageInfo, ResponseHeader, ResponseHeaderView};
use crate::service_types::channel_security_token::{ChannelSecurityToken, ChannelSecurityTokenView};
use crate::status_codes::StatusCode;

verus! {

/// The outcome of opening a secure channel, with the security token of the channel.
#[derive(Clone, Debug, PartialEq, Eq)]
pub struct OpenSecureChannelResponse {
    /// The header of the response.
    pub response_header: ResponseHeader,
    /// The version of the protocol that the server speaks.
    pub server_protocol_version: u32,
    /// The token of the channel.
    pub security_token: ChannelSecurityToken,
    /// A random number that is used once.
    pub server_nonce: ByteString,
}

/// The value of a `OpenSecureChannelResponse`.
pub struct OpenSecureChannelResponseView {
    pub response_header: ResponseHeaderView,
    pub server_protocol_version: u32,
    pub security_token: ChannelSecurityTokenView,
    pub server_nonce: Option<Seq<u8>>,
}

impl View for OpenSecureChannelResponse {
    type V = OpenSecureChannelResponseView;

    open spec fn view(&self) -> OpenSecureChannelResponseView {
        OpenSecureChannelResponseView {
            response_header: self.response_header@,
            server_protocol_version: self.server_protocol_version,
            security_token: self.security_token@,
            server_nonce: self.server_nonce@,
        }
    }
}

impl MessageInfo for OpenSecureChannelResponse {
    open spec fn message_object_id(&self) -> ObjectId {
        ObjectId::OpenSecureChannelResponse_Encoding_DefaultBinary
    }

    fn object_id(&self) -> (r: ObjectId) {
        ObjectId::OpenSecureChannelResponse_Encoding_DefaultBinary
    }
}

/// Wire form of a `OpenSecureChannelResponse`: its fields in the order of their declaration.
pub open spec fn open_secure_channel_response_encoding(v: OpenSecureChannelResponseView) -> Seq<u8> {
    ResponseHeader::encoding(v.response_header) + u32::encoding(v.server_protocol_version)
        + ChannelSecurityToken::encoding(v.security_token)
        + ByteString::encoding(v.server_nonce)
}

/// A `OpenSecureChannelResponse` off the front of `s`: its fields, one behind the other.
#[verifier::opaque]
pub open spec fn open_secure_channel_response_decoding(s: Seq<u8>, limits: DecodingLimits) -> Result<
    (OpenSecureChannelResponseView, Seq<u8>),
    StatusCode,
> {
    match ResponseHeader::decoding(s, limits) {
        Err(e) => Err(e),
        Ok((response_header, s)) =>
            match u32::decoding(s, limits) {
                Err(e) => Err(e),
                Ok((server_protocol_version, s)) =>
                    match ChannelSecurityToken::decoding(s, limits) {
                        Err(e) => Err(e),
                        Ok((security_token, s)) =>
                            match ByteString::decoding(s, limits) {
                                Err(e) => Err(e),
                                Ok((server_nonce, s)) =>
                                    Ok((
                                        OpenSecureChannelResponseView {
                                            response_header,
                                            server_protocol_version,
                                            security_token,
                                            server_nonce,
                                        },
                                        s,
                                    )),
                            },
                    },
            },
    }
}

impl BinaryEncoder for OpenSecureChannelResponse {
    open spec fn encoding(v: OpenSecureChannelResponseView) -> Seq<u8> {
        open_secure_channel_response_encoding(v)
    }

    open spec fn encodable(v: OpenSecureChannelResponseView) -> bool {
        &&& ResponseHeader::encodable(v.response_header)
        &&& ChannelSecurityToken::encodable(v.security_token)
        &&& ByteString::encodable(v.server_nonce)
    }

    open spec fn within(v: OpenSecureChannelResponseView, limits: DecodingLimits) -> bool {
        &&& ResponseHeader::within(v.response_header, limits)
        &&& ChannelSecurityToken::within(v.security_token, limits)
        &&& ByteString::within(v.server_nonce, limits)
    }

    open spec fn decoding(s: Seq<u8>, limits: DecodingLimits) -> Result<
        (OpenSecureChannelResponseView, Seq<u8>),
        StatusCode,
    > {
        open_secure_channel_response_decoding(s, limits)
    }

    proof fn lemma_round_trip(v: OpenSecureChannelResponseView, rest: Seq<u8>, limits: DecodingLimits) {
        reveal(open_secure_channel_response_decoding);
        let p0 = ResponseHeader::encoding(v.response_header);
        let p1 = u32::encoding(v.server_protocol_version);
        let p2 = ChannelSecurityToken::encoding(v.security_token);
        let p3 = ByteString::encoding(v.server_nonce);
        let r3 = p3 + rest;
        let r2 = p2 + r3;
        let r1 = p1 + r2;
        lemma_concat_assoc(p0 + p1 + p2, p3, rest);
        lemma_concat_assoc(p0 + p1, p2, r3);
        lemma_concat_assoc(p0, p1, r2);
        ResponseHeader::lemma_round_trip(v.response_header, r1, limits);
        u32::lemma_round_trip(v.server_protocol_version, r2, limits);
        ChannelSecurityToken::lemma_round_trip(v.security_token, r3, limits);
        ByteString::lemma_round_trip(v.server_nonce, rest, limits);
    }

    fn byte_len(&self) -> (r: usize) {
        let ghost v = self@;
        let ghost e0 = ResponseHeader::encoding(v.response_header);
        let ghost e1 = e0 + u32::encoding(v.server_protocol_version);
        let ghost e2 = e1 + ChannelSecurityToken::encoding(v.security_token);
        let ghost e3 = e2 + ByteString::encoding(v.server_nonce);
        let mut size: usize = self.response_header.byte_len();
        size = add_part_len(
            size,
            self.server_protocol_version.byte_len(),
            Ghost(e0),
            Ghost(u32::encoding(v.server_protocol_version)),
        );
        size = add_part_len(
            size,
            self.security_token.byte_len(),
            Ghost(e1),
            Ghost(ChannelSecurityToken::encoding(v.security_token)),
        );
        size = add_part_len(
            size,
            self.server_nonce.byte_len(),
            Ghost(e2),
            Ghost(ByteString::encoding(v.server_nonce)),
        );
        size
    }

    fn encode(&self, stream: &mut Vec<u8>) -> (r: EncodingResult<usize>) {
        let start = stream.len();
        let ghost o = stream@;
        let ghost v = self@;
        proof {
            lemma_extends_refl(o);
        }
        write_part(stream, &self.response_header, Ghost(o))?;
        write_part(stream, &self.server_protocol_version, Ghost(o))?;
        write_part(stream, &self.security_token, Ghost(o))?;
        write_part(stream, &self.server_nonce, Ghost(o))?;
        proof {
            let p0 = ResponseHeader::encoding(v.response_header);
            let p1 = u32::encoding(v.server_protocol_version);
            let p2 = ChannelSecurityToken::encoding(v.security_token);
            let p3 = ByteString::encoding(v.server_nonce);
            lemma_concat_assoc(o, p0, p1);
            lemma_concat_assoc(o, p0 + p1, p2);
            lemma_concat_assoc(o, p0 + p1 + p2, p3);
        }
        Ok(stream.len() - start)
    }

    fn decode(stream: &mut ReadStream, limits: &DecodingLimits) -> (r: EncodingResult<Self>) {
        proof {
            reveal(open_secure_channel_response_decoding);
        }
        let response_header = ResponseHeader::decode(stream, limits)?;
        let server_protocol_version = u32::decode(stream, limits)?;
        let security_token = ChannelSecurityToken::decode(stream, limits)?;
        let server_nonce = ByteString::decode(stream, limits)?;
        Ok(
            OpenSecureChannelResponse {
                response_header,
                server_protocol_version,
                security_token,
                server_nonce,
            },
        )
    }
}

} // verus!
