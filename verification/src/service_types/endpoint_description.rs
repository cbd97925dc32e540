//! The description of an endpoint of a server.

use vstd::prelude::*;
use crate::byte_string::ByteString;
use crate::encoding::{
    BinaryEncoder, DecodingLimits, EncodingResult, ReadStream, add_part_len, array_decoding,
    array_encodable, array_encoding, array_view, array_within, byte_len_array,
    lemma_array_round_trip, lemma_concat_assoc, lemma_extends_refl, read_array, write_array_part,
    write_part,
};
use crate::service_types::{MessageSecurityMode, UserTokenPolicy, UserTokenPolicyView};
use crate::service_types::application_description::{
    ApplicationDescription, ApplicationDescriptionView,
};
use crate::status_codes::StatusCode;
use crate::string::UAString;

verus! {

/// Describes an endpoint: where it is and how it is secured.
#[derive(Clone, Debug, PartialEq, Eq)]
pub struct EndpointDescription {
    /// The URL of the endpoint.
    pub endpoint_url: UAString,
    /// The server that the endpoint belongs to.
    pub server: ApplicationDescription,
    /// The certificate of the server.
    pub server_certificate: ByteString,
    /// How messages are protected.
    pub security_mode: MessageSecurityMode,
    /// The URI of the security policy.
    pub security_policy_uri: UAString,
    /// The kinds of user token that the endpoint accepts.
    pub user_identity_tokens: Option<Vec<UserTokenPolicy>>,
    /// The URI of the transport profile.
    pub transport_profile_uri: UAString,
    /// How secure the endpoint is, compared to the other endpoints of the server.
    pub security_level: u8,
}

/// The value of a `EndpointDescription`.
pub struct EndpointDescriptionView {
    pub endpoint_url: Option<Seq<char>>,
    pub server: ApplicationDescriptionView,
    pub server_certificate: Option<Seq<u8>>,
    pub security_mode: MessageSecurityMode,
    pub security_policy_uri: Option<Seq<char>>,
    pub user_identity_tokens: Option<Seq<UserTokenPolicyView>>,
    pub transport_profile_uri: Option<Seq<char>>,
    pub security_level: u8,
}

impl View for EndpointDescription {
    type V = EndpointDescriptionView;

    open spec fn view(&self) -> EndpointDescriptionView {
        EndpointDescriptionView {
            endpoint_url: self.endpoint_url@,
            server: self.server@,
            server_certificate: self.server_certificate@,
            security_mode: self.security_mode,
            security_policy_uri: self.security_policy_uri@,
            user_identity_tokens: array_view(self.user_identity_tokens),
            transport_profile_uri: self.transport_profile_uri@,
            security_level: self.security_level,
        }
    }
}

/// Wire form of a `EndpointDescription`: its fields in the order of their declaration.
pub open spec fn endpoint_description_encoding(v: EndpointDescriptionView) -> Seq<u8> {
    UAString::encoding(v.endpoint_url) + ApplicationDescription::encoding(v.server)
        + ByteString::encoding(v.server_certificate)
        + MessageSecurityMode::encoding(v.security_mode)
        + UAString::encoding(v.security_policy_uri)
        + array_encoding::<UserTokenPolicy>(v.user_identity_tokens)
        + UAString::encoding(v.transport_profile_uri) + u8::encoding(v.security_level)
}

/// A `EndpointDescription` off the front of `s`: its fields, one behind the other.
#[verifier::opaque]
pub open spec fn endpoint_description_decoding(s: Seq<u8>, limits: DecodingLimits) -> Result<
    (EndpointDescriptionView, Seq<u8>),
    StatusCode,
> {
    match UAString::decoding(s, limits) {
        Err(e) => Err(e),
        Ok((endpoint_url, s)) =>
            match ApplicationDescription::decoding(s, limits) {
                Err(e) => Err(e),
                Ok((server, s)) =>
                    match ByteString::decoding(s, limits) {
                        Err(e) => Err(e),
                        Ok((server_certificate, s)) =>
                            match MessageSecurityMode::decoding(s, limits) {
                                Err(e) => Err(e),
                                Ok((security_mode, s)) =>
                                    match UAString::decoding(s, limits) {
                                        Err(e) => Err(e),
                                        Ok((security_policy_uri, s)) =>
                                            match array_decoding::<UserTokenPolicy>(s, limits) {
                                                Err(e) => Err(e),
                                                Ok((user_identity_tokens, s)) =>
                                                    match UAString::decoding(s, limits) {
                                                        Err(e) => Err(e),
                                                        Ok((transport_profile_uri, s)) =>
                                                            match u8::decoding(s, limits) {
                                                                Err(e) => Err(e),
                                                                Ok((security_level, s)) =>
                                                                    Ok((
                                                                        EndpointDescriptionView {
                                                                            endpoint_url,
                                                                            server,
                                                                            server_certificate,
                                                                            security_mode,
                                                                            security_policy_uri,
                                                                            user_identity_tokens,
                                                                            transport_profile_uri,
                                                                            security_level,
                                                                        },
                                                                        s,
                                                                    )),
                                                            },
                                                    },
                                            },
                                    },
                            },
                    },
            },
    }
}

impl BinaryEncoder for EndpointDescription {
    open spec fn encoding(v: EndpointDescriptionView) -> Seq<u8> {
        endpoint_description_encoding(v)
    }

    open spec fn encodable(v: EndpointDescriptionView) -> bool {
        &&& UAString::encodable(v.endpoint_url)
        &&& ApplicationDescription::encodable(v.server)
        &&& ByteString::encodable(v.server_certificate)
        &&& MessageSecurityMode::encodable(v.security_mode)
        &&& UAString::encodable(v.security_policy_uri)
        &&& array_encodable::<UserTokenPolicy>(v.user_identity_tokens)
        &&& UAString::encodable(v.transport_profile_uri)
    }

    open spec fn within(v: EndpointDescriptionView, limits: DecodingLimits) -> bool {
        &&& UAString::within(v.endpoint_url, limits)
        &&& ApplicationDescription::within(v.server, limits)
        &&& ByteString::within(v.server_certificate, limits)
        &&& MessageSecurityMode::within(v.security_mode, limits)
        &&& UAString::within(v.security_policy_uri, limits)
        &&& array_within::<UserTokenPolicy>(v.user_identity_tokens, limits)
        &&& UAString::within(v.transport_profile_uri, limits)
    }

    open spec fn decoding(s: Seq<u8>, limits: DecodingLimits) -> Result<
        (EndpointDescriptionView, Seq<u8>),
        StatusCode,
    > {
        endpoint_description_decoding(s, limits)
    }

    proof fn lemma_round_trip(v: EndpointDescriptionView, rest: Seq<u8>, limits: DecodingLimits) {
        reveal(endpoint_description_decoding);
        let p0 = UAString::encoding(v.endpoint_url);
        let p1 = ApplicationDescription::encoding(v.server);
        let p2 = ByteString::encoding(v.server_certificate);
        let p3 = MessageSecurityMode::encoding(v.security_mode);
        let p4 = UAString::encoding(v.security_policy_uri);
        let p5 = array_encoding::<UserTokenPolicy>(v.user_identity_tokens);
        let p6 = UAString::encoding(v.transport_profile_uri);
        let p7 = u8::encoding(v.security_level);
        let r7 = p7 + rest;
        let r6 = p6 + r7;
        let r5 = p5 + r6;
        let r4 = p4 + r5;
        let r3 = p3 + r4;
        let r2 = p2 + r3;
        let r1 = p1 + r2;
        lemma_concat_assoc(p0 + p1 + p2 + p3 + p4 + p5 + p6, p7, rest);
        lemma_concat_assoc(p0 + p1 + p2 + p3 + p4 + p5, p6, r7);
        lemma_concat_assoc(p0 + p1 + p2 + p3 + p4, p5, r6);
        lemma_concat_assoc(p0 + p1 + p2 + p3, p4, r5);
        lemma_concat_assoc(p0 + p1 + p2, p3, r4);
        lemma_concat_assoc(p0 + p1, p2, r3);
        lemma_concat_assoc(p0, p1, r2);
        UAString::lemma_round_trip(v.endpoint_url, r1, limits);
        ApplicationDescription::lemma_round_trip(v.server, r2, limits);
        ByteString::lemma_round_trip(v.server_certificate, r3, limits);
        MessageSecurityMode::lemma_round_trip(v.security_mode, r4, limits);
        UAString::lemma_round_trip(v.security_policy_uri, r5, limits);
        lemma_array_round_trip::<UserTokenPolicy>(v.user_identity_tokens, r6, limits);
        UAString::lemma_round_trip(v.transport_profile_uri, r7, limits);
        u8::lemma_round_trip(v.security_level, rest, limits);
    }

    fn byte_len(&self) -> (r: usize) {
        let ghost v = self@;
        let ghost e0 = UAString::encoding(v.endpoint_url);
        let ghost e1 = e0 + ApplicationDescription::encoding(v.server);
        let ghost e2 = e1 + ByteString::encoding(v.server_certificate);
        let ghost e3 = e2 + MessageSecurityMode::encoding(v.security_mode);
        let ghost e4 = e3 + UAString::encoding(v.security_policy_uri);
        let ghost e5 = e4 + array_encoding::<UserTokenPolicy>(v.user_identity_tokens);
        let ghost e6 = e5 + UAString::encoding(v.transport_profile_uri);
        let ghost e7 = e6 + u8::encoding(v.security_level);
        let mut size: usize = self.endpoint_url.byte_len();
        size = add_part_len(
            size,
            self.server.byte_len(),
            Ghost(e0),
            Ghost(ApplicationDescription::encoding(v.server)),
        );
        size = add_part_len(
            size,
            self.server_certificate.byte_len(),
            Ghost(e1),
            Ghost(ByteString::encoding(v.server_certificate)),
        );
        size = add_part_len(
            size,
            self.security_mode.byte_len(),
            Ghost(e2),
            Ghost(MessageSecurityMode::encoding(v.security_mode)),
        );
        size = add_part_len(
            size,
            self.security_policy_uri.byte_len(),
            Ghost(e3),
            Ghost(UAString::encoding(v.security_policy_uri)),
        );
        size = add_part_len(
            size,
            byte_len_array(&self.user_identity_tokens),
            Ghost(e4),
            Ghost(array_encoding::<UserTokenPolicy>(v.user_identity_tokens)),
        );
        size = add_part_len(
            size,
            self.transport_profile_uri.byte_len(),
            Ghost(e5),
            Ghost(UAString::encoding(v.transport_profile_uri)),
        );
        size = add_part_len(
            size,
            self.security_level.byte_len(),
            Ghost(e6),
            Ghost(u8::encoding(v.security_level)),
        );
        size
    }

    fn encode(&self, stream: &mut Vec<u8>) -> (r: EncodingResult<usize>) {
        let start = stream.len();
        let ghost o = stream@;
        let ghost v = self@;
        proof {
            lemma_extends_refl(o);
        }
        write_part(stream, &self.endpoint_url, Ghost(o))?;
        write_part(stream, &self.server, Ghost(o))?;
        write_part(stream, &self.server_certificate, Ghost(o))?;
        write_part(stream, &self.security_mode, Ghost(o))?;
        write_part(stream, &self.security_policy_uri, Ghost(o))?;
        write_array_part(stream, &self.user_identity_tokens, Ghost(o))?;
        write_part(stream, &self.transport_profile_uri, Ghost(o))?;
        write_part(stream, &self.security_level, Ghost(o))?;
        proof {
            let p0 = UAString::encoding(v.endpoint_url);
            let p1 = ApplicationDescription::encoding(v.server);
            let p2 = ByteString::encoding(v.server_certificate);
            let p3 = MessageSecurityMode::encoding(v.security_mode);
            let p4 = UAString::encoding(v.security_policy_uri);
            let p5 = array_encoding::<UserTokenPolicy>(v.user_identity_tokens);
            let p6 = UAString::encoding(v.transport_profile_uri);
            let p7 = u8::encoding(v.security_level);
            lemma_concat_assoc(o, p0, p1);
            lemma_concat_assoc(o, p0 + p1, p2);
            lemma_concat_assoc(o, p0 + p1 + p2, p3);
            lemma_concat_assoc(o, p0 + p1 + p2 + p3, p4);
            lemma_concat_assoc(o, p0 + p1 + p2 + p3 + p4, p5);
            lemma_concat_assoc(o, p0 + p1 + p2 + p3 + p4 + p5, p6);
            lemma_concat_assoc(o, p0 + p1 + p2 + p3 + p4 + p5 + p6, p7);
        }
        Ok(stream.len() - start)
    }

    fn decode(stream: &mut ReadStream, limits: &DecodingLimits) -> (r: EncodingResult<Self>) {
        proof {
            reveal(endpoint_description_decoding);
        }
        let endpoint_url = UAString::decode(stream, limits)?;
        let server = ApplicationDescription::decode(stream, limits)?;
        let server_certificate = ByteString::decode(stream, limits)?;
        let security_mode = MessageSecurityMode::decode(stream, limits)?;
        let security_policy_uri = UAString::decode(stream, limits)?;
        let user_identity_tokens: Option<Vec<UserTokenPolicy>> = read_array(stream, limits)?;
        let transport_profile_uri = UAString::decode(stream, limits)?;
        let security_level = u8::decode(stream, limits)?;
        Ok(
            EndpointDescription {
                endpoint_url,
                server,
                server_certificate,
                security_mode,
                security_policy_uri,
                user_identity_tokens,
                transport_profile_uri,
                security_level,
            },
        )
    }
}

} // verus!
