//! The request that creates a session.

use vstd::prelude::*;
use crate::byte_string::ByteString;
use crate::encoding::{
    BinaryEncoder, DecodingLimits, EncodingResult, ReadStream, add_part_len, lemma_concat_assoc,
    lemma_extends_refl, write_part,
};
use crate::node_ids::ObjectId;
use crate::service_types::{MessageInfo, RequestHeader, RequestHeaderView};
use crate::service_types::application_description::{
    ApplicationDescription, ApplicationDescriptionView,
};
use crate::status_codes::StatusCode;
use crate::string::UAString;

verus! {

/// Creates a new session with the server.
#[derive(Clone, Debug, PartialEq, Eq)]
pub struct CreateSessionRequest {
    /// The header of the request.
    pub request_header: RequestHeader,
    /// The description of the client.
    pub client_description: ApplicationDescription,
    /// The URI of the server that the client wants to reach.
    pub server_uri: UAString,
    /// The network address that the client used to reach the endpoint.
    pub endpoint_url: UAString,
    /// A name of the session for people.
    pub session_name: UAString,
    /// A random number that is used once.
    pub client_nonce: ByteString,
    /// The certificate of the client.
    pub client_certificate: ByteString,
    /// The longest time in milliseconds that the session may stay open without activity, as the
    /// bits of a double.
    pub requested_session_timeout: u64,
    /// The largest response that the client takes; 0 for no limit.
    pub max_response_message_size: u32,
}

/// The value of a `CreateSessionRequest`.
pub struct CreateSessionRequestView {
    pub request_header: RequestHeaderView,
    pub client_description: ApplicationDescriptionView,
    pub server_uri: Option<Seq<char>>,
    pub endpoint_url: Option<Seq<char>>,
    pub session_name: Option<Seq<char>>,
    pub client_nonce: Option<Seq<u8>>,
    pub client_certificate: Option<Seq<u8>>,
    pub requested_session_timeout: u64,
    pub max_response_message_size: u32,
}

impl View for CreateSessionRequest {
    type V = CreateSessionRequestView;

    open spec fn view(&self) -> CreateSessionRequestView {
        CreateSessionRequestView {
            request_header: self.request_header@,
            client_description: self.client_description@,
            server_uri: self.server_uri@,
            endpoint_url: self.endpoint_url@,
            session_name: self.session_name@,
            client_nonce: self.client_nonce@,
            client_certificate: self.client_certificate@,
            requested_session_timeout: self.requested_session_timeout,
            max_response_message_size: self.max_response_message_size,
        }
    }
}

impl MessageInfo for CreateSessionRequest {
    open spec fn message_object_id(&self) -> ObjectId {
        ObjectId::CreateSessionRequest_Encoding_DefaultBinary
    }

    fn object_id(&self) -> (r: ObjectId) {
        ObjectId::CreateSessionRequest_Encoding_DefaultBinary
    }
}

/// Wire form of a `CreateSessionRequest`: its fields in the order of their declaration.
pub open spec fn create_session_request_encoding(v: CreateSessionRequestView) -> Seq<u8> {
    RequestHeader::encoding(v.request_header)
        + ApplicationDescription::encoding(v.client_description)
        + UAString::encoding(v.server_uri) + UAString::encoding(v.endpoint_url)
        + UAString::encoding(v.session_name) + ByteString::encoding(v.client_nonce)
        + ByteString::encoding(v.client_certificate)
        + u64::encoding(v.requested_session_timeout)
        + u32::encoding(v.max_response_message_size)
}

/// A `CreateSessionRequest` off the front of `s`: its fields, one behind the other.
#[verifier::opaque]
pub open spec fn create_session_request_decoding(s: Seq<u8>, limits: DecodingLimits) -> Result<
    (CreateSessionRequestView, Seq<u8>),
    StatusCode,
> {
    match RequestHeader::decoding(s, limits) {
        Err(e) => Err(e),
        Ok((request_header, s)) =>
            match ApplicationDescription::decoding(s, limits) {
                Err(e) => Err(e),
                Ok((client_description, s)) =>
                    match UAString::decoding(s, limits) {
                        Err(e) => Err(e),
                        Ok((server_uri, s)) =>
                            match UAString::decoding(s, limits) {
                                Err(e) => Err(e),
                                Ok((endpoint_url, s)) =>
                                    match UAString::decoding(s, limits) {
                                        Err(e) => Err(e),
                                        Ok((session_name, s)) =>
                                            match ByteString::decoding(s, limits) {
                                                Err(e) => Err(e),
                                                Ok((client_nonce, s)) =>
                                                    match ByteString::decoding(s, limits) {
                                                        Err(e) => Err(e),
                                                        Ok((client_certificate, s)) =>
                                                            match u64::decoding(s, limits) {
                                                                Err(e) => Err(e),
                                                                Ok((requested_session_timeout, s)) =>
                                                                    match u32::decoding(s, limits) {
                                                                        Err(e) => Err(e),
                                                                        Ok((max_response_message_size, s)) =>
                                                                            Ok((
                                                                                CreateSessionRequestView {
                                                                                    request_header,
                                                                                    client_description,
                                                                                    server_uri,
                                                                                    endpoint_url,
                                                                                    session_name,
                                                                                    client_nonce,
                                                                                    client_certificate,
                                                                                    requested_session_timeout,
                                                                                    max_response_message_size,
                                                                                },
                                                                                s,
                                                                            )),
                                                                    },
                                                            },
                                                    },
                                            },
                                    },
                            },
                    },
            },
    }
}

impl BinaryEncoder for CreateSessionRequest {
    open spec fn encoding(v: CreateSessionRequestView) -> Seq<u8> {
        create_session_request_encoding(v)
    }

    open spec fn encodable(v: CreateSessionRequestView) -> bool {
        &&& RequestHeader::encodable(v.request_header)
        &&& ApplicationDescription::encodable(v.client_description)
        &&& UAString::encodable(v.server_uri)
        &&& UAString::encodable(v.endpoint_url)
        &&& UAString::encodable(v.session_name)
        &&& ByteString::encodable(v.client_nonce)
        &&& ByteString::encodable(v.client_certificate)
    }

    open spec fn within(v: CreateSessionRequestView, limits: DecodingLimits) -> bool {
        &&& RequestHeader::within(v.request_header, limits)
        &&& ApplicationDescription::within(v.client_description, limits)
        &&& UAString::within(v.server_uri, limits)
        &&& UAString::within(v.endpoint_url, limits)
        &&& UAString::within(v.session_name, limits)
        &&& ByteString::within(v.client_nonce, limits)
        &&& ByteString::within(v.client_certificate, limits)
    }

    open spec fn decoding(s: Seq<u8>, limits: DecodingLimits) -> Result<
        (CreateSessionRequestView, Seq<u8>),
        StatusCode,
    > {
        create_session_request_decoding(s, limits)
    }

    proof fn lemma_round_trip(v: CreateSessionRequestView, rest: Seq<u8>, limits: DecodingLimits) {
        reveal(create_session_request_decoding);
        let p0 = RequestHeader::encoding(v.request_header);
        let p1 = ApplicationDescription::encoding(v.client_description);
        let p2 = UAString::encoding(v.server_uri);
        let p3 = UAString::encoding(v.endpoint_url);
        let p4 = UAString::encoding(v.session_name);
        let p5 = ByteString::encoding(v.client_nonce);
        let p6 = ByteString::encoding(v.client_certificate);
        let p7 = u64::encoding(v.requested_session_timeout);
        let p8 = u32::encoding(v.max_response_message_size);
        let r8 = p8 + rest;
        let r7 = p7 + r8;
        let r6 = p6 + r7;
        let r5 = p5 + r6;
        let r4 = p4 + r5;
        let r3 = p3 + r4;
        let r2 = p2 + r3;
        let r1 = p1 + r2;
        lemma_concat_assoc(p0 + p1 + p2 + p3 + p4 + p5 + p6 + p7, p8, rest);
        lemma_concat_assoc(p0 + p1 + p2 + p3 + p4 + p5 + p6, p7, r8);
        lemma_concat_assoc(p0 + p1 + p2 + p3 + p4 + p5, p6, r7);
        lemma_concat_assoc(p0 + p1 + p2 + p3 + p4, p5, r6);
        lemma_concat_assoc(p0 + p1 + p2 + p3, p4, r5);
        lemma_concat_assoc(p0 + p1 + p2, p3, r4);
        lemma_concat_assoc(p0 + p1, p2, r3);
        lemma_concat_assoc(p0, p1, r2);
        RequestHeader::lemma_round_trip(v.request_header, r1, limits);
        ApplicationDescription::lemma_round_trip(v.client_description, r2, limits);
        UAString::lemma_round_trip(v.server_uri, r3, limits);
        UAString::lemma_round_trip(v.endpoint_url, r4, limits);
        UAString::lemma_round_trip(v.session_name, r5, limits);
        ByteString::lemma_round_trip(v.client_nonce, r6, limits);
        ByteString::lemma_round_trip(v.client_certificate, r7, limits);
        u64::lemma_round_trip(v.requested_session_timeout, r8, limits);
        u32::lemma_round_trip(v.max_response_message_size, rest, limits);
    }

    fn byte_len(&self) -> (r: usize) {
        let ghost v = self@;
        let ghost e0 = RequestHeader::encoding(v.request_header);
        let ghost e1 = e0 + ApplicationDescription::encoding(v.client_description);
        let ghost e2 = e1 + UAString::encoding(v.server_uri);
        let ghost e3 = e2 + UAString::encoding(v.endpoint_url);
        let ghost e4 = e3 + UAString::encoding(v.session_name);
        let ghost e5 = e4 + ByteString::encoding(v.client_nonce);
        let ghost e6 = e5 + ByteString::encoding(v.client_certificate);
        let ghost e7 = e6 + u64::encoding(v.requested_session_timeout);
        let ghost e8 = e7 + u32::encoding(v.max_response_message_size);
        let mut size: usize = self.request_header.byte_len();
        size = add_part_len(
            size,
            self.client_description.byte_len(),
            Ghost(e0),
            Ghost(ApplicationDescription::encoding(v.client_description)),
        );
        size = add_part_len(
            size,
            self.server_uri.byte_len(),
            Ghost(e1),
            Ghost(UAString::encoding(v.server_uri)),
        );
        size = add_part_len(
            size,
            self.endpoint_url.byte_len(),
            Ghost(e2),
            Ghost(UAString::encoding(v.endpoint_url)),
        );
        size = add_part_len(
            size,
            self.session_name.byte_len(),
            Ghost(e3),
            Ghost(UAString::encoding(v.session_name)),
        );
        size = add_part_len(
            size,
            self.client_nonce.byte_len(),
            Ghost(e4),
            Ghost(ByteString::encoding(v.client_nonce)),
        );
        size = add_part_len(
            size,
            self.client_certificate.byte_len(),
            Ghost(e5),
            Ghost(ByteString::encoding(v.client_certificate)),
        );
        size = add_part_len(
            size,
            self.requested_session_timeout.byte_len(),
            Ghost(e6),
            Ghost(u64::encoding(v.requested_session_timeout)),
        );
        size = add_part_len(
            size,
            self.max_response_message_size.byte_len(),
            Ghost(e7),
            Ghost(u32::encoding(v.max_response_message_size)),
        );
        size
    }

    fn encode(&self, stream: &mut Vec<u8>) -> (r: EncodingResult<usize>) {
        let start = stream.len();
        let ghost o = stream@;
        let ghost v = self@;
        proof {
            lemma_extends_refl(o);
        }
        write_part(stream, &self.request_header, Ghost(o))?;
        write_part(stream, &self.client_description, Ghost(o))?;
        write_part(stream, &self.server_uri, Ghost(o))?;
        write_part(stream, &self.endpoint_url, Ghost(o))?;
        write_part(stream, &self.session_name, Ghost(o))?;
        write_part(stream, &self.client_nonce, Ghost(o))?;
        write_part(stream, &self.client_certificate, Ghost(o))?;
        write_part(stream, &self.requested_session_timeout, Ghost(o))?;
        write_part(stream, &self.max_response_message_size, Ghost(o))?;
        proof {
            let p0 = RequestHeader::encoding(v.request_header);
            let p1 = ApplicationDescription::encoding(v.client_description);
            let p2 = UAString::encoding(v.server_uri);
            let p3 = UAString::encoding(v.endpoint_url);
            let p4 = UAString::encoding(v.session_name);
            let p5 = ByteString::encoding(v.client_nonce);
            let p6 = ByteString::encoding(v.client_certificate);
            let p7 = u64::encoding(v.requested_session_timeout);
            let p8 = u32::encoding(v.max_response_message_size);
            lemma_concat_assoc(o, p0, p1);
            lemma_concat_assoc(o, p0 + p1, p2);
            lemma_concat_assoc(o, p0 + p1 + p2, p3);
            lemma_concat_assoc(o, p0 + p1 + p2 + p3, p4);
            lemma_concat_assoc(o, p0 + p1 + p2 + p3 + p4, p5);
            lemma_concat_assoc(o, p0 + p1 + p2 + p3 + p4 + p5, p6);
            lemma_concat_assoc(o, p0 + p1 + p2 + p3 + p4 + p5 + p6, p7);
            lemma_concat_assoc(o, p0 + p1 + p2 + p3 + p4 + p5 + p6 + p7, p8);
        }
        Ok(stream.len() - start)
    }

    fn decode(stream: &mut ReadStream, limits: &DecodingLimits) -> (r: EncodingResult<Self>) {
        proof {
            reveal(create_session_request_decoding);
        }
        let request_header = RequestHeader::decode(stream, limits)?;
        let client_description = ApplicationDescription::decode(stream, limits)?;
        let server_uri = UAString::decode(stream, limits)?;
        let endpoint_url = UAString::decode(stream, limits)?;
        let session_name = UAString::decode(stream, limits)?;
        let client_nonce = ByteString::decode(stream, limits)?;
        let client_certificate = ByteString::decode(stream, limits)?;
        let requested_session_timeout = u64::decode(stream, limits)?;
        let max_response_message_size = u32::decode(stream, limits)?;
        Ok(
            CreateSessionRequest {
                request_header,
                client_description,
                server_uri,
                endpoint_url,
                session_name,
                client_nonce,
                client_certificate,
                requested_session_timeout,
                max_response_message_size,
            },
        )
    }
}

} // verus!
