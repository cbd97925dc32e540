//! Types of the services: the enumerations, the headers that every request
//! and response starts with, and the messages themselves.

use vstd::prelude::*;
use crate::date_time::DateTime;
use crate::diagnostic_info::{DiagnosticInfo, DiagnosticInfoView, empty_diagnostic_info};
use crate::encoding::{
    BinaryEncoder, DecodingLimits, EncodingResult, ReadStream, add_part_len, array_decoding,
    array_encodable, array_encoding, array_view, array_within, byte_len_array, i32_decoding,
    i32_encoding, lemma_array_round_trip, lemma_concat_assoc, lemma_extends_refl,
    lemma_i32_round_trip, read_array, read_i32, write_array_part, write_i32, write_part,
};
use crate::extension_object::{ExtensionObject, ExtensionObjectView, null_extension_object};
use crate::node_id::{NodeId, NodeIdView, numeric_node_id};
use crate::node_ids::ObjectId;
use crate::status_codes::StatusCode;
use crate::string::UAString;

pub mod application_description;
pub mod attribute_operand;
pub mod browse_next_request;
pub mod browse_next_response;
pub mod browse_result;
pub mod channel_security_token;
pub mod close_secure_channel_request;
pub mod close_session_request;
pub mod configuration_version_data_type;
pub mod content_filter_element_result;
pub mod content_filter_result;
pub mod create_session_request;
pub mod data_set_meta_data_type;
pub mod data_set_reader_data_type;
pub mod data_set_writer_data_type;
pub mod data_type_attributes;
pub mod datagram_connection_transport_data_type;
pub mod delete_nodes_item;
pub mod delete_nodes_request;
pub mod delete_nodes_response;
pub mod endpoint_description;
pub mod enum_definition;
pub mod enum_description;
pub mod enum_field;
pub mod field_meta_data;
pub mod json_content_masks;
pub mod json_data_set_reader_message_data_type;
pub mod json_writer_group_message_data_type;
pub mod key_value_pair;
pub mod object_attributes;
pub mod open_secure_channel_request;
pub mod open_secure_channel_response;
pub mod pub_sub_connection_data_type;
pub mod publish_request;
pub mod reader_group_data_type;
pub mod reference_description;
pub mod reference_type_attributes;
pub mod relative_path;
pub mod set_triggering_response;
pub mod simple_attribute_operand;
pub mod simple_type_description;
pub mod structure_definition;
pub mod structure_description;
pub mod structure_field;
pub mod structure_type;
pub mod subscription_acknowledgement;
pub mod variable_attributes;
pub mod variable_type_attributes;
pub mod view_attributes;
pub mod writer_group_data_type;

verus! {

/// A time stamp in UTC.
pub type UtcTime = DateTime;

/// A number that identifies a request, a subscription or a monitored item.
pub type IntegerId = u32;

/// Implemented by messages.
pub trait MessageInfo {
    /// The object id associated with the message.
    spec fn message_object_id(&self) -> ObjectId;

    /// The object id associated with the message.
    fn object_id(&self) -> (r: ObjectId)
        ensures
            r == self.message_object_id(),
    ;

    /// The node id that the object id of the message stands for: the
    /// numeric node id with the number of the object id, in namespace 0.
    fn node_id(&self) -> (r: NodeId)
        ensures
            r@ == numeric_node_id(0, self.message_object_id().spec_value()),
    {
        self.object_id().as_node_id()
    }
}

/// The kinds of token by which a user is identified.
#[derive(Debug, Copy, Clone, PartialEq, Eq, Structural)]
pub enum UserTokenType {
    Anonymous,
    Username,
    Certificate,
    IssuedToken,
}

impl View for UserTokenType {
    type V = UserTokenType;

    open spec fn view(&self) -> UserTokenType {
        *self
    }
}

impl UserTokenType {
    /// The number that stands for the value on the wire.
    pub open spec fn spec_value(&self) -> i32 {
        match self {
            UserTokenType::Anonymous => 0,
            UserTokenType::Username => 1,
            UserTokenType::Certificate => 2,
            UserTokenType::IssuedToken => 3,
        }
    }

    /// The value that a number stands for, if it stands for one.
    pub open spec fn spec_from_i32(value: i32) -> Option<UserTokenType> {
        if value == 0 {
            Some(UserTokenType::Anonymous)
        } else if value == 1 {
            Some(UserTokenType::Username)
        } else if value == 2 {
            Some(UserTokenType::Certificate)
        } else if value == 3 {
            Some(UserTokenType::IssuedToken)
        } else {
            None
        }
    }

    #[verifier::when_used_as_spec(spec_value)]
    pub fn value(&self) -> (r: i32)
        ensures
            r == self.spec_value(),
    {
        match self {
            UserTokenType::Anonymous => 0,
            UserTokenType::Username => 1,
            UserTokenType::Certificate => 2,
            UserTokenType::IssuedToken => 3,
        }
    }

    #[verifier::when_used_as_spec(spec_from_i32)]
    pub fn from_i32(value: i32) -> (r: Option<UserTokenType>)
        ensures
            r == Self::spec_from_i32(value),
    {
        match value {
            0 => Some(UserTokenType::Anonymous),
            1 => Some(UserTokenType::Username),
            2 => Some(UserTokenType::Certificate),
            3 => Some(UserTokenType::IssuedToken),
            _ => None,
        }
    }
}

/// Wire form of a `UserTokenType`: its number as an `i32`.
pub open spec fn user_token_type_encoding(v: UserTokenType) -> Seq<u8> {
    i32_encoding(v.spec_value())
}

/// A `UserTokenType` off the front of `s`. A number that stands for no value is
/// refused.
#[verifier::opaque]
pub open spec fn user_token_type_decoding(s: Seq<u8>) -> Result<(UserTokenType, Seq<u8>), StatusCode> {
    match i32_decoding(s) {
        Err(e) => Err(e),
        Ok((value, s)) => match UserTokenType::spec_from_i32(value) {
            None => Err(StatusCode::BadDecodingError),
            Some(v) => Ok((v, s)),
        },
    }
}

impl BinaryEncoder for UserTokenType {
    open spec fn encoding(v: UserTokenType) -> Seq<u8> {
        user_token_type_encoding(v)
    }

    open spec fn encodable(v: UserTokenType) -> bool {
        true
    }

    open spec fn within(v: UserTokenType, limits: DecodingLimits) -> bool {
        true
    }

    open spec fn decoding(s: Seq<u8>, limits: DecodingLimits) -> Result<
        (UserTokenType, Seq<u8>),
        StatusCode,
    > {
        user_token_type_decoding(s)
    }

    proof fn lemma_round_trip(v: UserTokenType, rest: Seq<u8>, limits: DecodingLimits) {
        reveal(user_token_type_decoding);
        lemma_i32_round_trip(v.spec_value(), rest);
    }

    fn byte_len(&self) -> (r: usize) {
        proof {
            lemma_i32_round_trip(self.spec_value(), Seq::empty());
        }
        4
    }

    fn encode(&self, stream: &mut Vec<u8>) -> (r: EncodingResult<usize>) {
        proof {
            lemma_i32_round_trip(self.spec_value(), Seq::empty());
        }
        write_i32(stream, self.value())
    }

    fn decode(stream: &mut ReadStream, limits: &DecodingLimits) -> (r: EncodingResult<Self>) {
        proof {
            reveal(user_token_type_decoding);
        }
        let value = read_i32(stream)?;
        match UserTokenType::from_i32(value) {
            Some(v) => Ok(v),
            None => Err(StatusCode::BadDecodingError),
        }
    }
}

/// A kind of user token that a server accepts.
#[derive(Clone, Debug, PartialEq, Eq)]
pub struct UserTokenPolicy {
    /// Name of the policy, chosen by the server.
    pub policy_id: UAString,
    /// The kind of token.
    pub token_type: UserTokenType,
    /// URI of the kind of issued token, for issued tokens.
    pub issued_token_type: UAString,
    /// Where an issued token is to be had.
    pub issuer_endpoint_url: UAString,
    /// The security policy that protects the token on its way.
    pub security_policy_uri: UAString,
}

/// The value of a `UserTokenPolicy`.
pub struct UserTokenPolicyView {
    pub policy_id: Option<Seq<char>>,
    pub token_type: UserTokenType,
    pub issued_token_type: Option<Seq<char>>,
    pub issuer_endpoint_url: Option<Seq<char>>,
    pub security_policy_uri: Option<Seq<char>>,
}

impl View for UserTokenPolicy {
    type V = UserTokenPolicyView;

    open spec fn view(&self) -> UserTokenPolicyView {
        UserTokenPolicyView {
            policy_id: self.policy_id@,
            token_type: self.token_type,
            issued_token_type: self.issued_token_type@,
            issuer_endpoint_url: self.issuer_endpoint_url@,
            security_policy_uri: self.security_policy_uri@,
        }
    }
}
impl UserTokenPolicy {
    /// The policy under which a user stays anonymous.
    pub fn new_anonymous() -> (r: UserTokenPolicy)
        ensures
            r@ == (UserTokenPolicyView {
                policy_id: Some("anonymous"@),
                token_type: UserTokenType::Anonymous,
                issued_token_type: None,
                issuer_endpoint_url: None,
                security_policy_uri: None,
            }),
    {
        UserTokenPolicy {
            policy_id: UAString::from_str("anonymous"),
            token_type: UserTokenType::Anonymous,
            issued_token_type: UAString::null(),
            issuer_endpoint_url: UAString::null(),
            security_policy_uri: UAString::null(),
        }
    }

    /// The policy under which a user gives a name and a password.
    pub fn new_user_pass() -> (r: UserTokenPolicy)
        ensures
            r@ == (UserTokenPolicyView {
                policy_id: Some("userpass"@),
                token_type: UserTokenType::Username,
                issued_token_type: None,
                issuer_endpoint_url: None,
                security_policy_uri: None,
            }),
    {
        UserTokenPolicy {
            policy_id: UAString::from_str("userpass"),
            token_type: UserTokenType::Username,
            issued_token_type: UAString::null(),
            issuer_endpoint_url: UAString::null(),
            security_policy_uri: UAString::null(),
        }
    }
}

/// Wire form of a `UserTokenPolicy`: its fields in the order of their declaration.
pub open spec fn user_token_policy_encoding(v: UserTokenPolicyView) -> Seq<u8> {
    UAString::encoding(v.policy_id) + UserTokenType::encoding(v.token_type)
        + UAString::encoding(v.issued_token_type) + UAString::encoding(v.issuer_endpoint_url)
        + UAString::encoding(v.security_policy_uri)
}

/// A `UserTokenPolicy` off the front of `s`: its fields, one behind the other.
#[verifier::opaque]
pub open spec fn user_token_policy_decoding(s: Seq<u8>, limits: DecodingLimits) -> Result<
    (UserTokenPolicyView, Seq<u8>),
    StatusCode,
> {
    match UAString::decoding(s, limits) {
        Err(e) => Err(e),
        Ok((policy_id, s)) =>
            match UserTokenType::decoding(s, limits) {
                Err(e) => Err(e),
                Ok((token_type, s)) =>
                    match UAString::decoding(s, limits) {
                        Err(e) => Err(e),
                        Ok((issued_token_type, s)) =>
                            match UAString::decoding(s, limits) {
                                Err(e) => Err(e),
                                Ok((issuer_endpoint_url, s)) =>
                                    match UAString::decoding(s, limits) {
                                        Err(e) => Err(e),
                                        Ok((security_policy_uri, s)) =>
                                            Ok((
                                                UserTokenPolicyView {
                                                    policy_id,
                                                    token_type,
                                                    issued_token_type,
                                                    issuer_endpoint_url,
                                                    security_policy_uri,
                                                },
                                                s,
                                            )),
                                    },
                            },
                    },
            },
    }
}

impl BinaryEncoder for UserTokenPolicy {
    open spec fn encoding(v: UserTokenPolicyView) -> Seq<u8> {
        user_token_policy_encoding(v)
    }

    open spec fn encodable(v: UserTokenPolicyView) -> bool {
        &&& UAString::encodable(v.policy_id)
        &&& UserTokenType::encodable(v.token_type)
        &&& UAString::encodable(v.issued_token_type)
        &&& UAString::encodable(v.issuer_endpoint_url)
        &&& UAString::encodable(v.security_policy_uri)
    }

    open spec fn within(v: UserTokenPolicyView, limits: DecodingLimits) -> bool {
        &&& UAString::within(v.policy_id, limits)
        &&& UserTokenType::within(v.token_type, limits)
        &&& UAString::within(v.issued_token_type, limits)
        &&& UAString::within(v.issuer_endpoint_url, limits)
        &&& UAString::within(v.security_policy_uri, limits)
    }

    open spec fn decoding(s: Seq<u8>, limits: DecodingLimits) -> Result<
        (UserTokenPolicyView, Seq<u8>),
        StatusCode,
    > {
        user_token_policy_decoding(s, limits)
    }

    proof fn lemma_round_trip(v: UserTokenPolicyView, rest: Seq<u8>, limits: DecodingLimits) {
        reveal(user_token_policy_decoding);
        let p0 = UAString::encoding(v.policy_id);
        let p1 = UserTokenType::encoding(v.token_type);
        let p2 = UAString::encoding(v.issued_token_type);
        let p3 = UAString::encoding(v.issuer_endpoint_url);
        let p4 = UAString::encoding(v.security_policy_uri);
        let r4 = p4 + rest;
        let r3 = p3 + r4;
        let r2 = p2 + r3;
        let r1 = p1 + r2;
        lemma_concat_assoc(p0 + p1 + p2 + p3, p4, rest);
        lemma_concat_assoc(p0 + p1 + p2, p3, r4);
        lemma_concat_assoc(p0 + p1, p2, r3);
        lemma_concat_assoc(p0, p1, r2);
        UAString::lemma_round_trip(v.policy_id, r1, limits);
        UserTokenType::lemma_round_trip(v.token_type, r2, limits);
        UAString::lemma_round_trip(v.issued_token_type, r3, limits);
        UAString::lemma_round_trip(v.issuer_endpoint_url, r4, limits);
        UAString::lemma_round_trip(v.security_policy_uri, rest, limits);
    }

    fn byte_len(&self) -> (r: usize) {
        let ghost v = self@;
        let ghost e0 = UAString::encoding(v.policy_id);
        let ghost e1 = e0 + UserTokenType::encoding(v.token_type);
        let ghost e2 = e1 + UAString::encoding(v.issued_token_type);
        let ghost e3 = e2 + UAString::encoding(v.issuer_endpoint_url);
        let ghost e4 = e3 + UAString::encoding(v.security_policy_uri);
        let mut size: usize = self.policy_id.byte_len();
        size = add_part_len(
            size,
            self.token_type.byte_len(),
            Ghost(e0),
            Ghost(UserTokenType::encoding(v.token_type)),
        );
        size = add_part_len(
            size,
            self.issued_token_type.byte_len(),
            Ghost(e1),
            Ghost(UAString::encoding(v.issued_token_type)),
        );
        size = add_part_len(
            size,
            self.issuer_endpoint_url.byte_len(),
            Ghost(e2),
            Ghost(UAString::encoding(v.issuer_endpoint_url)),
        );
        size = add_part_len(
            size,
            self.security_policy_uri.byte_len(),
            Ghost(e3),
            Ghost(UAString::encoding(v.security_policy_uri)),
        );
        size
    }

    fn encode(&self, stream: &mut Vec<u8>) -> (r: EncodingResult<usize>) {
        let start = stream.len();
        let ghost o = stream@;
        let ghost v = self@;
        proof {
            lemma_extends_refl(o);
        }
        write_part(stream, &self.policy_id, Ghost(o))?;
        write_part(stream, &self.token_type, Ghost(o))?;
        write_part(stream, &self.issued_token_type, Ghost(o))?;
        write_part(stream, &self.issuer_endpoint_url, Ghost(o))?;
        write_part(stream, &self.security_policy_uri, Ghost(o))?;
        proof {
            let p0 = UAString::encoding(v.policy_id);
            let p1 = UserTokenType::encoding(v.token_type);
            let p2 = UAString::encoding(v.issued_token_type);
            let p3 = UAString::encoding(v.issuer_endpoint_url);
            let p4 = UAString::encoding(v.security_policy_uri);
            lemma_concat_assoc(o, p0, p1);
            lemma_concat_assoc(o, p0 + p1, p2);
            lemma_concat_assoc(o, p0 + p1 + p2, p3);
            lemma_concat_assoc(o, p0 + p1 + p2 + p3, p4);
        }
        Ok(stream.len() - start)
    }

    fn decode(stream: &mut ReadStream, limits: &DecodingLimits) -> (r: EncodingResult<Self>) {
        proof {
            reveal(user_token_policy_decoding);
        }
        let policy_id = UAString::decode(stream, limits)?;
        let token_type = UserTokenType::decode(stream, limits)?;
        let issued_token_type = UAString::decode(stream, limits)?;
        let issuer_endpoint_url = UAString::decode(stream, limits)?;
        let security_policy_uri = UAString::decode(stream, limits)?;
        Ok(
            UserTokenPolicy {
                policy_id,
                token_type,
                issued_token_type,
                issuer_endpoint_url,
                security_policy_uri,
            },
        )
    }
}

/// The roles that an application plays.
#[derive(Debug, Copy, Clone, PartialEq, Eq, Structural)]
pub enum ApplicationType {
    Server,
    Client,
    ClientAndServer,
    DiscoveryServer,
}

impl View for ApplicationType {
    type V = ApplicationType;

    open spec fn view(&self) -> ApplicationType {
        *self
    }
}

impl ApplicationType {
    /// The number that stands for the value on the wire.
    pub open spec fn spec_value(&self) -> i32 {
        match self {
            ApplicationType::Server => 0,
            ApplicationType::Client => 1,
            ApplicationType::ClientAndServer => 2,
            ApplicationType::DiscoveryServer => 3,
        }
    }

    /// The value that a number stands for, if it stands for one.
    pub open spec fn spec_from_i32(value: i32) -> Option<ApplicationType> {
        if value == 0 {
            Some(ApplicationType::Server)
        } else if value == 1 {
            Some(ApplicationType::Client)
        } else if value == 2 {
            Some(ApplicationType::ClientAndServer)
        } else if value == 3 {
            Some(ApplicationType::DiscoveryServer)
        } else {
            None
        }
    }

    #[verifier::when_used_as_spec(spec_value)]
    pub fn value(&self) -> (r: i32)
        ensures
            r == self.spec_value(),
    {
        match self {
            ApplicationType::Server => 0,
            ApplicationType::Client => 1,
            ApplicationType::ClientAndServer => 2,
            ApplicationType::DiscoveryServer => 3,
        }
    }

    #[verifier::when_used_as_spec(spec_from_i32)]
    pub fn from_i32(value: i32) -> (r: Option<ApplicationType>)
        ensures
            r == Self::spec_from_i32(value),
    {
        match value {
            0 => Some(ApplicationType::Server),
            1 => Some(ApplicationType::Client),
            2 => Some(ApplicationType::ClientAndServer),
            3 => Some(ApplicationType::DiscoveryServer),
            _ => None,
        }
    }
}

/// Wire form of a `ApplicationType`: its number as an `i32`.
pub open spec fn application_type_encoding(v: ApplicationType) -> Seq<u8> {
    i32_encoding(v.spec_value())
}

/// A `ApplicationType` off the front of `s`. A number that stands for no value is
/// refused.
#[verifier::opaque]
pub open spec fn application_type_decoding(s: Seq<u8>) -> Result<(ApplicationType, Seq<u8>), StatusCode> {
    match i32_decoding(s) {
        Err(e) => Err(e),
        Ok((value, s)) => match ApplicationType::spec_from_i32(value) {
            None => Err(StatusCode::BadDecodingError),
            Some(v) => Ok((v, s)),
        },
    }
}

impl BinaryEncoder for ApplicationType {
    open spec fn encoding(v: ApplicationType) -> Seq<u8> {
        application_type_encoding(v)
    }

    open spec fn encodable(v: ApplicationType) -> bool {
        true
    }

    open spec fn within(v: ApplicationType, limits: DecodingLimits) -> bool {
        true
    }

    open spec fn decoding(s: Seq<u8>, limits: DecodingLimits) -> Result<
        (ApplicationType, Seq<u8>),
        StatusCode,
    > {
        application_type_decoding(s)
    }

    proof fn lemma_round_trip(v: ApplicationType, rest: Seq<u8>, limits: DecodingLimits) {
        reveal(application_type_decoding);
        lemma_i32_round_trip(v.spec_value(), rest);
    }

    fn byte_len(&self) -> (r: usize) {
        proof {
            lemma_i32_round_trip(self.spec_value(), Seq::empty());
        }
        4
    }

    fn encode(&self, stream: &mut Vec<u8>) -> (r: EncodingResult<usize>) {
        proof {
            lemma_i32_round_trip(self.spec_value(), Seq::empty());
        }
        write_i32(stream, self.value())
    }

    fn decode(stream: &mut ReadStream, limits: &DecodingLimits) -> (r: EncodingResult<Self>) {
        proof {
            reveal(application_type_decoding);
        }
        let value = read_i32(stream)?;
        match ApplicationType::from_i32(value) {
            Some(v) => Ok(v),
            None => Err(StatusCode::BadDecodingError),
        }
    }
}

/// The header that every request starts with.
#[derive(Clone, Debug, PartialEq, Eq)]
pub struct RequestHeader {
    /// The secret session identifier by which the server ties the request to a session.
    pub authentication_token: NodeId,
    /// The time the client sent the request.
    pub timestamp: UtcTime,
    /// A handle that the client gives the request; the response carries it back.
    pub request_handle: u32,
    /// A bit mask of the kinds of diagnostics that the response is to hold; 0 asks for none.
    pub return_diagnostics: u32,
    /// Identifies the entry of the client's audit log that belongs to the request.
    pub audit_entry_id: UAString,
    /// The time in milliseconds after which the client gives the request up; 0 for no timeout.
    pub timeout_hint: u32,
    /// Reserved for future use.
    pub additional_header: ExtensionObject,
}

/// The value of a `RequestHeader`.
pub struct RequestHeaderView {
    pub authentication_token: NodeIdView,
    pub timestamp: i64,
    pub request_handle: u32,
    pub return_diagnostics: u32,
    pub audit_entry_id: Option<Seq<char>>,
    pub timeout_hint: u32,
    pub additional_header: ExtensionObjectView,
}

impl View for RequestHeader {
    type V = RequestHeaderView;

    open spec fn view(&self) -> RequestHeaderView {
        RequestHeaderView {
            authentication_token: self.authentication_token@,
            timestamp: self.timestamp@,
            request_handle: self.request_handle,
            return_diagnostics: self.return_diagnostics,
            audit_entry_id: self.audit_entry_id@,
            timeout_hint: self.timeout_hint,
            additional_header: self.additional_header@,
        }
    }
}
impl RequestHeader {
    /// The header of a request made now under the given session, with no
    /// diagnostics asked for, no audit entry, no timeout and no additional
    /// header.
    pub fn new(authentication_token: &NodeId, timestamp: &DateTime, request_handle: IntegerId) -> (r:
        RequestHeader)
        ensures
            r@ == (RequestHeaderView {
                authentication_token: authentication_token@,
                timestamp: timestamp@,
                request_handle,
                return_diagnostics: 0,
                audit_entry_id: None,
                timeout_hint: 0,
                additional_header: null_extension_object(),
            }),
    {
        RequestHeader {
            authentication_token: authentication_token.clone(),
            timestamp: *timestamp,
            request_handle,
            return_diagnostics: 0,
            audit_entry_id: UAString::null(),
            timeout_hint: 0,
            additional_header: ExtensionObject::null(),
        }
    }
}

/// Wire form of a `RequestHeader`: its fields in the order of their declaration.
pub open spec fn request_header_encoding(v: RequestHeaderView) -> Seq<u8> {
    NodeId::encoding(v.authentication_token) + UtcTime::encoding(v.timestamp)
        + u32::encoding(v.request_handle) + u32::encoding(v.return_diagnostics)
        + UAString::encoding(v.audit_entry_id) + u32::encoding(v.timeout_hint)
        + ExtensionObject::encoding(v.additional_header)
}

/// A `RequestHeader` off the front of `s`: its fields, one behind the other.
#[verifier::opaque]
pub open spec fn request_header_decoding(s: Seq<u8>, limits: DecodingLimits) -> Result<
    (RequestHeaderView, Seq<u8>),
    StatusCode,
> {
    match NodeId::decoding(s, limits) {
        Err(e) => Err(e),
        Ok((authentication_token, s)) =>
            match UtcTime::decoding(s, limits) {
                Err(e) => Err(e),
                Ok((timestamp, s)) =>
                    match u32::decoding(s, limits) {
                        Err(e) => Err(e),
                        Ok((request_handle, s)) =>
                            match u32::decoding(s, limits) {
                                Err(e) => Err(e),
                                Ok((return_diagnostics, s)) =>
                                    match UAString::decoding(s, limits) {
                                        Err(e) => Err(e),
                                        Ok((audit_entry_id, s)) =>
                                            match u32::decoding(s, limits) {
                                                Err(e) => Err(e),
                                                Ok((timeout_hint, s)) =>
                                                    match ExtensionObject::decoding(s, limits) {
                                                        Err(e) => Err(e),
                                                        Ok((additional_header, s)) =>
                                                            Ok((
                                                                RequestHeaderView {
                                                                    authentication_token,
                                                                    timestamp,
                                                                    request_handle,
                                                                    return_diagnostics,
                                                                    audit_entry_id,
                                                                    timeout_hint,
                                                                    additional_header,
                                                                },
                                                                s,
                                                            )),
                                                    },
                                            },
                                    },
                            },
                    },
            },
    }
}

impl BinaryEncoder for RequestHeader {
    open spec fn encoding(v: RequestHeaderView) -> Seq<u8> {
        request_header_encoding(v)
    }

    open spec fn encodable(v: RequestHeaderView) -> bool {
        &&& NodeId::encodable(v.authentication_token)
        &&& UtcTime::encodable(v.timestamp)
        &&& UAString::encodable(v.audit_entry_id)
        &&& ExtensionObject::encodable(v.additional_header)
    }

    open spec fn within(v: RequestHeaderView, limits: DecodingLimits) -> bool {
        &&& NodeId::within(v.authentication_token, limits)
        &&& UtcTime::within(v.timestamp, limits)
        &&& UAString::within(v.audit_entry_id, limits)
        &&& ExtensionObject::within(v.additional_header, limits)
    }

    open spec fn decoding(s: Seq<u8>, limits: DecodingLimits) -> Result<
        (RequestHeaderView, Seq<u8>),
        StatusCode,
    > {
        request_header_decoding(s, limits)
    }

    proof fn lemma_round_trip(v: RequestHeaderView, rest: Seq<u8>, limits: DecodingLimits) {
        reveal(request_header_decoding);
        let p0 = NodeId::encoding(v.authentication_token);
        let p1 = UtcTime::encoding(v.timestamp);
        let p2 = u32::encoding(v.request_handle);
        let p3 = u32::encoding(v.return_diagnostics);
        let p4 = UAString::encoding(v.audit_entry_id);
        let p5 = u32::encoding(v.timeout_hint);
        let p6 = ExtensionObject::encoding(v.additional_header);
        let r6 = p6 + rest;
        let r5 = p5 + r6;
        let r4 = p4 + r5;
        let r3 = p3 + r4;
        let r2 = p2 + r3;
        let r1 = p1 + r2;
        lemma_concat_assoc(p0 + p1 + p2 + p3 + p4 + p5, p6, rest);
        lemma_concat_assoc(p0 + p1 + p2 + p3 + p4, p5, r6);
        lemma_concat_assoc(p0 + p1 + p2 + p3, p4, r5);
        lemma_concat_assoc(p0 + p1 + p2, p3, r4);
        lemma_concat_assoc(p0 + p1, p2, r3);
        lemma_concat_assoc(p0, p1, r2);
        NodeId::lemma_round_trip(v.authentication_token, r1, limits);
        UtcTime::lemma_round_trip(v.timestamp, r2, limits);
        u32::lemma_round_trip(v.request_handle, r3, limits);
        u32::lemma_round_trip(v.return_diagnostics, r4, limits);
        UAString::lemma_round_trip(v.audit_entry_id, r5, limits);
        u32::lemma_round_trip(v.timeout_hint, r6, limits);
        ExtensionObject::lemma_round_trip(v.additional_header, rest, limits);
    }

    fn byte_len(&self) -> (r: usize) {
        let ghost v = self@;
        let ghost e0 = NodeId::encoding(v.authentication_token);
        let ghost e1 = e0 + UtcTime::encoding(v.timestamp);
        let ghost e2 = e1 + u32::encoding(v.request_handle);
        let ghost e3 = e2 + u32::encoding(v.return_diagnostics);
        let ghost e4 = e3 + UAString::encoding(v.audit_entry_id);
        let ghost e5 = e4 + u32::encoding(v.timeout_hint);
        let ghost e6 = e5 + ExtensionObject::encoding(v.additional_header);
        let mut size: usize = self.authentication_token.byte_len();
        size = add_part_len(
            size,
            self.timestamp.byte_len(),
            Ghost(e0),
            Ghost(UtcTime::encoding(v.timestamp)),
        );
        size = add_part_len(
            size,
            self.request_handle.byte_len(),
            Ghost(e1),
            Ghost(u32::encoding(v.request_handle)),
        );
        size = add_part_len(
            size,
            self.return_diagnostics.byte_len(),
            Ghost(e2),
            Ghost(u32::encoding(v.return_diagnostics)),
        );
        size = add_part_len(
            size,
            self.audit_entry_id.byte_len(),
            Ghost(e3),
            Ghost(UAString::encoding(v.audit_entry_id)),
        );
        size = add_part_len(
            size,
            self.timeout_hint.byte_len(),
            Ghost(e4),
            Ghost(u32::encoding(v.timeout_hint)),
        );
        size = add_part_len(
            size,
            self.additional_header.byte_len(),
            Ghost(e5),
            Ghost(ExtensionObject::encoding(v.additional_header)),
        );
        size
    }

    fn encode(&self, stream: &mut Vec<u8>) -> (r: EncodingResult<usize>) {
        let start = stream.len();
        let ghost o = stream@;
        let ghost v = self@;
        proof {
            lemma_extends_refl(o);
        }
        write_part(stream, &self.authentication_token, Ghost(o))?;
        write_part(stream, &self.timestamp, Ghost(o))?;
        write_part(stream, &self.request_handle, Ghost(o))?;
        write_part(stream, &self.return_diagnostics, Ghost(o))?;
        write_part(stream, &self.audit_entry_id, Ghost(o))?;
        write_part(stream, &self.timeout_hint, Ghost(o))?;
        write_part(stream, &self.additional_header, Ghost(o))?;
        proof {
            let p0 = NodeId::encoding(v.authentication_token);
            let p1 = UtcTime::encoding(v.timestamp);
            let p2 = u32::encoding(v.request_handle);
            let p3 = u32::encoding(v.return_diagnostics);
            let p4 = UAString::encoding(v.audit_entry_id);
            let p5 = u32::encoding(v.timeout_hint);
            let p6 = ExtensionObject::encoding(v.additional_header);
            lemma_concat_assoc(o, p0, p1);
            lemma_concat_assoc(o, p0 + p1, p2);
            lemma_concat_assoc(o, p0 + p1 + p2, p3);
            lemma_concat_assoc(o, p0 + p1 + p2 + p3, p4);
            lemma_concat_assoc(o, p0 + p1 + p2 + p3 + p4, p5);
            lemma_concat_assoc(o, p0 + p1 + p2 + p3 + p4 + p5, p6);
        }
        Ok(stream.len() - start)
    }

    fn decode(stream: &mut ReadStream, limits: &DecodingLimits) -> (r: EncodingResult<Self>) {
        proof {
            reveal(request_header_decoding);
        }
        let authentication_token = NodeId::decode(stream, limits)?;
        let timestamp = UtcTime::decode(stream, limits)?;
        let request_handle = u32::decode(stream, limits)?;
        let return_diagnostics = u32::decode(stream, limits)?;
        let audit_entry_id = UAString::decode(stream, limits)?;
        let timeout_hint = u32::decode(stream, limits)?;
        let additional_header = ExtensionObject::decode(stream, limits)?;
        Ok(
            RequestHeader {
                authentication_token,
                timestamp,
                request_handle,
                return_diagnostics,
                audit_entry_id,
                timeout_hint,
                additional_header,
            },
        )
    }
}

/// The header that every response starts with.
#[derive(Clone, Debug, PartialEq, Eq)]
pub struct ResponseHeader {
    /// The time the server sent the response.
    pub timestamp: UtcTime,
    /// The handle that the client gave the request.
    pub request_handle: u32,
    /// The outcome of the service call.
    pub service_result: StatusCode,
    /// Diagnostics of the service call.
    pub service_diagnostics: DiagnosticInfo,
    /// The strings that the diagnostics refer to by index.
    pub string_table: Option<Vec<UAString>>,
    /// Reserved for future use.
    pub additional_header: ExtensionObject,
}

/// The value of a `ResponseHeader`.
pub struct ResponseHeaderView {
    pub timestamp: i64,
    pub request_handle: u32,
    pub service_result: StatusCode,
    pub service_diagnostics: DiagnosticInfoView,
    pub string_table: Option<Seq<Option<Seq<char>>>>,
    pub additional_header: ExtensionObjectView,
}

impl View for ResponseHeader {
    type V = ResponseHeaderView;

    open spec fn view(&self) -> ResponseHeaderView {
        ResponseHeaderView {
            timestamp: self.timestamp@,
            request_handle: self.request_handle,
            service_result: self.service_result,
            service_diagnostics: self.service_diagnostics@,
            string_table: array_view(self.string_table),
            additional_header: self.additional_header@,
        }
    }
}
impl ResponseHeader {
    /// The header of a response to the request with the given header, with
    /// the given outcome, no diagnostics and no additional header.
    pub fn new_service_result(
        timestamp: &DateTime,
        request_header: &RequestHeader,
        service_result: StatusCode,
    ) -> (r: ResponseHeader)
        ensures
            r@ == (ResponseHeaderView {
                timestamp: timestamp@,
                request_handle: request_header@.request_handle,
                service_result,
                service_diagnostics: empty_diagnostic_info(),
                string_table: None,
                additional_header: null_extension_object(),
            }),
    {
        ResponseHeader {
            timestamp: *timestamp,
            request_handle: request_header.request_handle,
            service_result,
            service_diagnostics: DiagnosticInfo::new(),
            string_table: None,
            additional_header: ExtensionObject::null(),
        }
    }

    /// The header of a good response, made now, to the request with the
    /// handle 0. For tests.
    pub fn null() -> (r: ResponseHeader)
        ensures
            r@ == null_response_header(r@.timestamp),
    {
        ResponseHeader::null_at(&DateTime::now())
    }

    /// The header of a good response, made at the given time, to the request
    /// with the handle 0.
    pub fn null_at(timestamp: &DateTime) -> (r: ResponseHeader)
        ensures
            r@ == null_response_header(timestamp@),
    {
        ResponseHeader {
            timestamp: *timestamp,
            request_handle: 0,
            service_result: StatusCode::Good,
            service_diagnostics: DiagnosticInfo::new(),
            string_table: None,
            additional_header: ExtensionObject::null(),
        }
    }
}

/// The header of a good response to the request with the handle 0, made at
/// the given time.
pub open spec fn null_response_header(timestamp: i64) -> ResponseHeaderView {
    ResponseHeaderView {
        timestamp,
        request_handle: 0,
        service_result: StatusCode::Good,
        service_diagnostics: empty_diagnostic_info(),
        string_table: None,
        additional_header: null_extension_object(),
    }
}

/// Wire form of a `ResponseHeader`: its fields in the order of their declaration.
pub open spec fn response_header_encoding(v: ResponseHeaderView) -> Seq<u8> {
    UtcTime::encoding(v.timestamp) + u32::encoding(v.request_handle)
        + StatusCode::encoding(v.service_result)
        + DiagnosticInfo::encoding(v.service_diagnostics)
        + array_encoding::<UAString>(v.string_table)
        + ExtensionObject::encoding(v.additional_header)
}

/// A `ResponseHeader` off the front of `s`: its fields, one behind the other.
#[verifier::opaque]
pub open spec fn response_header_decoding(s: Seq<u8>, limits: DecodingLimits) -> Result<
    (ResponseHeaderView, Seq<u8>),
    StatusCode,
> {
    match UtcTime::decoding(s, limits) {
        Err(e) => Err(e),
        Ok((timestamp, s)) =>
            match u32::decoding(s, limits) {
                Err(e) => Err(e),
                Ok((request_handle, s)) =>
                    match StatusCode::decoding(s, limits) {
                        Err(e) => Err(e),
                        Ok((service_result, s)) =>
                            match DiagnosticInfo::decoding(s, limits) {
                                Err(e) => Err(e),
                                Ok((service_diagnostics, s)) =>
                                    match array_decoding::<UAString>(s, limits) {
                                        Err(e) => Err(e),
                                        Ok((string_table, s)) =>
                                            match ExtensionObject::decoding(s, limits) {
                                                Err(e) => Err(e),
                                                Ok((additional_header, s)) =>
                                                    Ok((
                                                        ResponseHeaderView {
                                                            timestamp,
                                                            request_handle,
                                                            service_result,
                                                            service_diagnostics,
                                                            string_table,
                                                            additional_header,
                                                        },
                                                        s,
                                                    )),
                                            },
                                    },
                            },
                    },
            },
    }
}

impl BinaryEncoder for ResponseHeader {
    open spec fn encoding(v: ResponseHeaderView) -> Seq<u8> {
        response_header_encoding(v)
    }

    open spec fn encodable(v: ResponseHeaderView) -> bool {
        &&& UtcTime::encodable(v.timestamp)
        &&& StatusCode::encodable(v.service_result)
        &&& DiagnosticInfo::encodable(v.service_diagnostics)
        &&& array_encodable::<UAString>(v.string_table)
        &&& ExtensionObject::encodable(v.additional_header)
    }

    open spec fn within(v: ResponseHeaderView, limits: DecodingLimits) -> bool {
        &&& UtcTime::within(v.timestamp, limits)
        &&& StatusCode::within(v.service_result, limits)
        &&& DiagnosticInfo::within(v.service_diagnostics, limits)
        &&& array_within::<UAString>(v.string_table, limits)
        &&& ExtensionObject::within(v.additional_header, limits)
    }

    open spec fn decoding(s: Seq<u8>, limits: DecodingLimits) -> Result<
        (ResponseHeaderView, Seq<u8>),
        StatusCode,
    > {
        response_header_decoding(s, limits)
    }

    proof fn lemma_round_trip(v: ResponseHeaderView, rest: Seq<u8>, limits: DecodingLimits) {
        reveal(response_header_decoding);
        let p0 = UtcTime::encoding(v.timestamp);
        let p1 = u32::encoding(v.request_handle);
        let p2 = StatusCode::encoding(v.service_result);
        let p3 = DiagnosticInfo::encoding(v.service_diagnostics);
        let p4 = array_encoding::<UAString>(v.string_table);
        let p5 = ExtensionObject::encoding(v.additional_header);
        let r5 = p5 + rest;
        let r4 = p4 + r5;
        let r3 = p3 + r4;
        let r2 = p2 + r3;
        let r1 = p1 + r2;
        lemma_concat_assoc(p0 + p1 + p2 + p3 + p4, p5, rest);
        lemma_concat_assoc(p0 + p1 + p2 + p3, p4, r5);
        lemma_concat_assoc(p0 + p1 + p2, p3, r4);
        lemma_concat_assoc(p0 + p1, p2, r3);
        lemma_concat_assoc(p0, p1, r2);
        UtcTime::lemma_round_trip(v.timestamp, r1, limits);
        u32::lemma_round_trip(v.request_handle, r2, limits);
        StatusCode::lemma_round_trip(v.service_result, r3, limits);
        DiagnosticInfo::lemma_round_trip(v.service_diagnostics, r4, limits);
        lemma_array_round_trip::<UAString>(v.string_table, r5, limits);
        ExtensionObject::lemma_round_trip(v.additional_header, rest, limits);
    }

    fn byte_len(&self) -> (r: usize) {
        let ghost v = self@;
        let ghost e0 = UtcTime::encoding(v.timestamp);
        let ghost e1 = e0 + u32::encoding(v.request_handle);
        let ghost e2 = e1 + StatusCode::encoding(v.service_result);
        let ghost e3 = e2 + DiagnosticInfo::encoding(v.service_diagnostics);
        let ghost e4 = e3 + array_encoding::<UAString>(v.string_table);
        let ghost e5 = e4 + ExtensionObject::encoding(v.additional_header);
        let mut size: usize = self.timestamp.byte_len();
        size = add_part_len(
            size,
            self.request_handle.byte_len(),
            Ghost(e0),
            Ghost(u32::encoding(v.request_handle)),
        );
        size = add_part_len(
            size,
            self.service_result.byte_len(),
            Ghost(e1),
            Ghost(StatusCode::encoding(v.service_result)),
        );
        size = add_part_len(
            size,
            self.service_diagnostics.byte_len(),
            Ghost(e2),
            Ghost(DiagnosticInfo::encoding(v.service_diagnostics)),
        );
        size = add_part_len(
            size,
            byte_len_array(&self.string_table),
            Ghost(e3),
            Ghost(array_encoding::<UAString>(v.string_table)),
        );
        size = add_part_len(
            size,
            self.additional_header.byte_len(),
            Ghost(e4),
            Ghost(ExtensionObject::encoding(v.additional_header)),
        );
        size
    }

    fn encode(&self, stream: &mut Vec<u8>) -> (r: EncodingResult<usize>) {
        let start = stream.len();
        let ghost o = stream@;
        let ghost v = self@;
        proof {
            lemma_extends_refl(o);
        }
        write_part(stream, &self.timestamp, Ghost(o))?;
        write_part(stream, &self.request_handle, Ghost(o))?;
        write_part(stream, &self.service_result, Ghost(o))?;
        write_part(stream, &self.service_diagnostics, Ghost(o))?;
        write_array_part(stream, &self.string_table, Ghost(o))?;
        write_part(stream, &self.additional_header, Ghost(o))?;
        proof {
            let p0 = UtcTime::encoding(v.timestamp);
            let p1 = u32::encoding(v.request_handle);
            let p2 = StatusCode::encoding(v.service_result);
            let p3 = DiagnosticInfo::encoding(v.service_diagnostics);
            let p4 = array_encoding::<UAString>(v.string_table);
            let p5 = ExtensionObject::encoding(v.additional_header);
            lemma_concat_assoc(o, p0, p1);
            lemma_concat_assoc(o, p0 + p1, p2);
            lemma_concat_assoc(o, p0 + p1 + p2, p3);
            lemma_concat_assoc(o, p0 + p1 + p2 + p3, p4);
            lemma_concat_assoc(o, p0 + p1 + p2 + p3 + p4, p5);
        }
        Ok(stream.len() - start)
    }

    fn decode(stream: &mut ReadStream, limits: &DecodingLimits) -> (r: EncodingResult<Self>) {
        proof {
            reveal(response_header_decoding);
        }
        let timestamp = UtcTime::decode(stream, limits)?;
        let request_handle = u32::decode(stream, limits)?;
        let service_result = StatusCode::decode(stream, limits)?;
        let service_diagnostics = DiagnosticInfo::decode(stream, limits)?;
        let string_table: Option<Vec<UAString>> = read_array(stream, limits)?;
        let additional_header = ExtensionObject::decode(stream, limits)?;
        Ok(
            ResponseHeader {
                timestamp,
                request_handle,
                service_result,
                service_diagnostics,
                string_table,
                additional_header,
            },
        )
    }
}

/// Which of the time stamps of a value a read is to return.
#[derive(Debug, Copy, Clone, PartialEq, Eq, Structural)]
pub enum TimestampsToReturn {
    Source,
    Server,
    Both,
    Neither,
}

impl View for TimestampsToReturn {
    type V = TimestampsToReturn;

    open spec fn view(&self) -> TimestampsToReturn {
        *self
    }
}

impl TimestampsToReturn {
    /// The number that stands for the value on the wire.
    pub open spec fn spec_value(&self) -> i32 {
        match self {
            TimestampsToReturn::Source => 0,
            TimestampsToReturn::Server => 1,
            TimestampsToReturn::Both => 2,
            TimestampsToReturn::Neither => 3,
        }
    }

    /// The value that a number stands for, if it stands for one.
    pub open spec fn spec_from_i32(value: i32) -> Option<TimestampsToReturn> {
        if value == 0 {
            Some(TimestampsToReturn::Source)
        } else if value == 1 {
            Some(TimestampsToReturn::Server)
        } else if value == 2 {
            Some(TimestampsToReturn::Both)
        } else if value == 3 {
            Some(TimestampsToReturn::Neither)
        } else {
            None
        }
    }

    #[verifier::when_used_as_spec(spec_value)]
    pub fn value(&self) -> (r: i32)
        ensures
            r == self.spec_value(),
    {
        match self {
            TimestampsToReturn::Source => 0,
            TimestampsToReturn::Server => 1,
            TimestampsToReturn::Both => 2,
            TimestampsToReturn::Neither => 3,
        }
    }

    #[verifier::when_used_as_spec(spec_from_i32)]
    pub fn from_i32(value: i32) -> (r: Option<TimestampsToReturn>)
        ensures
            r == Self::spec_from_i32(value),
    {
        match value {
            0 => Some(TimestampsToReturn::Source),
            1 => Some(TimestampsToReturn::Server),
            2 => Some(TimestampsToReturn::Both),
            3 => Some(TimestampsToReturn::Neither),
            _ => None,
        }
    }
}

/// Wire form of a `TimestampsToReturn`: its number as an `i32`.
pub open spec fn timestamps_to_return_encoding(v: TimestampsToReturn) -> Seq<u8> {
    i32_encoding(v.spec_value())
}

/// A `TimestampsToReturn` off the front of `s`. A number that stands for no value is
/// refused.
#[verifier::opaque]
pub open spec fn timestamps_to_return_decoding(s: Seq<u8>) -> Result<(TimestampsToReturn, Seq<u8>), StatusCode> {
    match i32_decoding(s) {
        Err(e) => Err(e),
        Ok((value, s)) => match TimestampsToReturn::spec_from_i32(value) {
            None => Err(StatusCode::BadTimestampsToReturnInvalid),
            Some(v) => Ok((v, s)),
        },
    }
}

impl BinaryEncoder for TimestampsToReturn {
    open spec fn encoding(v: TimestampsToReturn) -> Seq<u8> {
        timestamps_to_return_encoding(v)
    }

    open spec fn encodable(v: TimestampsToReturn) -> bool {
        true
    }

    open spec fn within(v: TimestampsToReturn, limits: DecodingLimits) -> bool {
        true
    }

    open spec fn decoding(s: Seq<u8>, limits: DecodingLimits) -> Result<
        (TimestampsToReturn, Seq<u8>),
        StatusCode,
    > {
        timestamps_to_return_decoding(s)
    }

    proof fn lemma_round_trip(v: TimestampsToReturn, rest: Seq<u8>, limits: DecodingLimits) {
        reveal(timestamps_to_return_decoding);
        lemma_i32_round_trip(v.spec_value(), rest);
    }

    fn byte_len(&self) -> (r: usize) {
        proof {
            lemma_i32_round_trip(self.spec_value(), Seq::empty());
        }
        4
    }

    fn encode(&self, stream: &mut Vec<u8>) -> (r: EncodingResult<usize>) {
        proof {
            lemma_i32_round_trip(self.spec_value(), Seq::empty());
        }
        write_i32(stream, self.value())
    }

    fn decode(stream: &mut ReadStream, limits: &DecodingLimits) -> (r: EncodingResult<Self>) {
        proof {
            reveal(timestamps_to_return_decoding);
        }
        let value = read_i32(stream)?;
        match TimestampsToReturn::from_i32(value) {
            Some(v) => Ok(v),
            None => Err(StatusCode::BadTimestampsToReturnInvalid),
        }
    }
}

/// The classes of nodes in an address space.
#[derive(Debug, Copy, Clone, PartialEq, Eq, Structural)]
pub enum NodeClass {
    Unspecified,
    Object,
    Variable,
    Method,
    ObjectType,
    VariableType,
    ReferenceType,
    DataType,
    View,
}

impl View for NodeClass {
    type V = NodeClass;

    open spec fn view(&self) -> NodeClass {
        *self
    }
}

impl NodeClass {
    /// The number that stands for the value on the wire.
    pub open spec fn spec_value(&self) -> i32 {
        match self {
            NodeClass::Unspecified => 0,
            NodeClass::Object => 1,
            NodeClass::Variable => 2,
            NodeClass::Method => 4,
            NodeClass::ObjectType => 8,
            NodeClass::VariableType => 16,
            NodeClass::ReferenceType => 32,
            NodeClass::DataType => 64,
            NodeClass::View => 128,
        }
    }

    /// The value that a number stands for, if it stands for one.
    pub open spec fn spec_from_i32(value: i32) -> Option<NodeClass> {
        if value == 0 {
            Some(NodeClass::Unspecified)
        } else if value == 1 {
            Some(NodeClass::Object)
        } else if value == 2 {
            Some(NodeClass::Variable)
        } else if value == 4 {
            Some(NodeClass::Method)
        } else if value == 8 {
            Some(NodeClass::ObjectType)
        } else if value == 16 {
            Some(NodeClass::VariableType)
        } else if value == 32 {
            Some(NodeClass::ReferenceType)
        } else if value == 64 {
            Some(NodeClass::DataType)
        } else if value == 128 {
            Some(NodeClass::View)
        } else {
            None
        }
    }

    #[verifier::when_used_as_spec(spec_value)]
    pub fn value(&self) -> (r: i32)
        ensures
            r == self.spec_value(),
    {
        match self {
            NodeClass::Unspecified => 0,
            NodeClass::Object => 1,
            NodeClass::Variable => 2,
            NodeClass::Method => 4,
            NodeClass::ObjectType => 8,
            NodeClass::VariableType => 16,
            NodeClass::ReferenceType => 32,
            NodeClass::DataType => 64,
            NodeClass::View => 128,
        }
    }

    #[verifier::when_used_as_spec(spec_from_i32)]
    pub fn from_i32(value: i32) -> (r: Option<NodeClass>)
        ensures
            r == Self::spec_from_i32(value),
    {
        match value {
            0 => Some(NodeClass::Unspecified),
            1 => Some(NodeClass::Object),
            2 => Some(NodeClass::Variable),
            4 => Some(NodeClass::Method),
            8 => Some(NodeClass::ObjectType),
            16 => Some(NodeClass::VariableType),
            32 => Some(NodeClass::ReferenceType),
            64 => Some(NodeClass::DataType),
            128 => Some(NodeClass::View),
            _ => None,
        }
    }
}

/// Wire form of a `NodeClass`: its number as an `i32`.
pub open spec fn node_class_encoding(v: NodeClass) -> Seq<u8> {
    i32_encoding(v.spec_value())
}

/// A `NodeClass` off the front of `s`. A number that stands for no value is
/// refused.
#[verifier::opaque]
pub open spec fn node_class_decoding(s: Seq<u8>) -> Result<(NodeClass, Seq<u8>), StatusCode> {
    match i32_decoding(s) {
        Err(e) => Err(e),
        Ok((value, s)) => match NodeClass::spec_from_i32(value) {
            None => Err(StatusCode::BadNodeClassInvalid),
            Some(v) => Ok((v, s)),
        },
    }
}

impl BinaryEncoder for NodeClass {
    open spec fn encoding(v: NodeClass) -> Seq<u8> {
        node_class_encoding(v)
    }

    open spec fn encodable(v: NodeClass) -> bool {
        true
    }

    open spec fn within(v: NodeClass, limits: DecodingLimits) -> bool {
        true
    }

    open spec fn decoding(s: Seq<u8>, limits: DecodingLimits) -> Result<
        (NodeClass, Seq<u8>),
        StatusCode,
    > {
        node_class_decoding(s)
    }

    proof fn lemma_round_trip(v: NodeClass, rest: Seq<u8>, limits: DecodingLimits) {
        reveal(node_class_decoding);
        lemma_i32_round_trip(v.spec_value(), rest);
    }

    fn byte_len(&self) -> (r: usize) {
        proof {
            lemma_i32_round_trip(self.spec_value(), Seq::empty());
        }
        4
    }

    fn encode(&self, stream: &mut Vec<u8>) -> (r: EncodingResult<usize>) {
        proof {
            lemma_i32_round_trip(self.spec_value(), Seq::empty());
        }
        write_i32(stream, self.value())
    }

    fn decode(stream: &mut ReadStream, limits: &DecodingLimits) -> (r: EncodingResult<Self>) {
        proof {
            reveal(node_class_decoding);
        }
        let value = read_i32(stream)?;
        match NodeClass::from_i32(value) {
            Some(v) => Ok(v),
            None => Err(StatusCode::BadNodeClassInvalid),
        }
    }
}

/// The changes of a monitored value that are reported.
#[derive(Debug, Copy, Clone, PartialEq, Eq, Structural)]
pub enum DataChangeTrigger {
    Status,
    StatusValue,
    StatusValueTimestamp,
}

impl View for DataChangeTrigger {
    type V = DataChangeTrigger;

    open spec fn view(&self) -> DataChangeTrigger {
        *self
    }
}

impl DataChangeTrigger {
    /// The number that stands for the value on the wire.
    pub open spec fn spec_value(&self) -> i32 {
        match self {
            DataChangeTrigger::Status => 0,
            DataChangeTrigger::StatusValue => 1,
            DataChangeTrigger::StatusValueTimestamp => 2,
        }
    }

    /// The value that a number stands for, if it stands for one.
    pub open spec fn spec_from_i32(value: i32) -> Option<DataChangeTrigger> {
        if value == 0 {
            Some(DataChangeTrigger::Status)
        } else if value == 1 {
            Some(DataChangeTrigger::StatusValue)
        } else if value == 2 {
            Some(DataChangeTrigger::StatusValueTimestamp)
        } else {
            None
        }
    }

    #[verifier::when_used_as_spec(spec_value)]
    pub fn value(&self) -> (r: i32)
        ensures
            r == self.spec_value(),
    {
        match self {
            DataChangeTrigger::Status => 0,
            DataChangeTrigger::StatusValue => 1,
            DataChangeTrigger::StatusValueTimestamp => 2,
        }
    }

    #[verifier::when_used_as_spec(spec_from_i32)]
    pub fn from_i32(value: i32) -> (r: Option<DataChangeTrigger>)
        ensures
            r == Self::spec_from_i32(value),
    {
        match value {
            0 => Some(DataChangeTrigger::Status),
            1 => Some(DataChangeTrigger::StatusValue),
            2 => Some(DataChangeTrigger::StatusValueTimestamp),
            _ => None,
        }
    }
}

/// Wire form of a `DataChangeTrigger`: its number as an `i32`.
pub open spec fn data_change_trigger_encoding(v: DataChangeTrigger) -> Seq<u8> {
    i32_encoding(v.spec_value())
}

/// A `DataChangeTrigger` off the front of `s`. A number that stands for no value is
/// refused.
#[verifier::opaque]
pub open spec fn data_change_trigger_decoding(s: Seq<u8>) -> Result<(DataChangeTrigger, Seq<u8>), StatusCode> {
    match i32_decoding(s) {
        Err(e) => Err(e),
        Ok((value, s)) => match DataChangeTrigger::spec_from_i32(value) {
            None => Err(StatusCode::BadUnexpectedError),
            Some(v) => Ok((v, s)),
        },
    }
}

impl BinaryEncoder for DataChangeTrigger {
    open spec fn encoding(v: DataChangeTrigger) -> Seq<u8> {
        data_change_trigger_encoding(v)
    }

    open spec fn encodable(v: DataChangeTrigger) -> bool {
        true
    }

    open spec fn within(v: DataChangeTrigger, limits: DecodingLimits) -> bool {
        true
    }

    open spec fn decoding(s: Seq<u8>, limits: DecodingLimits) -> Result<
        (DataChangeTrigger, Seq<u8>),
        StatusCode,
    > {
        data_change_trigger_decoding(s)
    }

    proof fn lemma_round_trip(v: DataChangeTrigger, rest: Seq<u8>, limits: DecodingLimits) {
        reveal(data_change_trigger_decoding);
        lemma_i32_round_trip(v.spec_value(), rest);
    }

    fn byte_len(&self) -> (r: usize) {
        proof {
            lemma_i32_round_trip(self.spec_value(), Seq::empty());
        }
        4
    }

    fn encode(&self, stream: &mut Vec<u8>) -> (r: EncodingResult<usize>) {
        proof {
            lemma_i32_round_trip(self.spec_value(), Seq::empty());
        }
        write_i32(stream, self.value())
    }

    fn decode(stream: &mut ReadStream, limits: &DecodingLimits) -> (r: EncodingResult<Self>) {
        proof {
            reveal(data_change_trigger_decoding);
        }
        let value = read_i32(stream)?;
        match DataChangeTrigger::from_i32(value) {
            Some(v) => Ok(v),
            None => Err(StatusCode::BadUnexpectedError),
        }
    }
}

/// The operators of a content filter.
#[derive(Debug, Copy, Clone, PartialEq, Eq, Structural)]
pub enum FilterOperator {
    Equals,
    IsNull,
    GreaterThan,
    LessThan,
    GreaterThanOrEqual,
    LessThanOrEqual,
    Like,
    Not,
    Between,
    InList,
    And,
    Or,
    Cast,
    BitwiseAnd,
    BitwiseOr,
}

impl View for FilterOperator {
    type V = FilterOperator;

    open spec fn view(&self) -> FilterOperator {
        *self
    }
}

impl FilterOperator {
    /// The number that stands for the value on the wire.
    pub open spec fn spec_value(&self) -> i32 {
        match self {
            FilterOperator::Equals => 0,
            FilterOperator::IsNull => 1,
            FilterOperator::GreaterThan => 2,
            FilterOperator::LessThan => 3,
            FilterOperator::GreaterThanOrEqual => 4,
            FilterOperator::LessThanOrEqual => 5,
            FilterOperator::Like => 6,
            FilterOperator::Not => 7,
            FilterOperator::Between => 8,
            FilterOperator::InList => 9,
            FilterOperator::And => 10,
            FilterOperator::Or => 11,
            FilterOperator::Cast => 12,
            FilterOperator::BitwiseAnd => 16,
            FilterOperator::BitwiseOr => 17,
        }
    }

    /// The value that a number stands for, if it stands for one.
    pub open spec fn spec_from_i32(value: i32) -> Option<FilterOperator> {
        if value == 0 {
            Some(FilterOperator::Equals)
        } else if value == 1 {
            Some(FilterOperator::IsNull)
        } else if value == 2 {
            Some(FilterOperator::GreaterThan)
        } else if value == 3 {
            Some(FilterOperator::LessThan)
        } else if value == 4 {
            Some(FilterOperator::GreaterThanOrEqual)
        } else if value == 5 {
            Some(FilterOperator::LessThanOrEqual)
        } else if value == 6 {
            Some(FilterOperator::Like)
        } else if value == 7 {
            Some(FilterOperator::Not)
        } else if value == 8 {
            Some(FilterOperator::Between)
        } else if value == 9 {
            Some(FilterOperator::InList)
        } else if value == 10 {
            Some(FilterOperator::And)
        } else if value == 11 {
            Some(FilterOperator::Or)
        } else if value == 12 {
            Some(FilterOperator::Cast)
        } else if value == 16 {
            Some(FilterOperator::BitwiseAnd)
        } else if value == 17 {
            Some(FilterOperator::BitwiseOr)
        } else {
            None
        }
    }

    #[verifier::when_used_as_spec(spec_value)]
    pub fn value(&self) -> (r: i32)
        ensures
            r == self.spec_value(),
    {
        match self {
            FilterOperator::Equals => 0,
            FilterOperator::IsNull => 1,
            FilterOperator::GreaterThan => 2,
            FilterOperator::LessThan => 3,
            FilterOperator::GreaterThanOrEqual => 4,
            FilterOperator::LessThanOrEqual => 5,
            FilterOperator::Like => 6,
            FilterOperator::Not => 7,
            FilterOperator::Between => 8,
            FilterOperator::InList => 9,
            FilterOperator::And => 10,
            FilterOperator::Or => 11,
            FilterOperator::Cast => 12,
            FilterOperator::BitwiseAnd => 16,
            FilterOperator::BitwiseOr => 17,
        }
    }

    #[verifier::when_used_as_spec(spec_from_i32)]
    pub fn from_i32(value: i32) -> (r: Option<FilterOperator>)
        ensures
            r == Self::spec_from_i32(value),
    {
        match value {
            0 => Some(FilterOperator::Equals),
            1 => Some(FilterOperator::IsNull),
            2 => Some(FilterOperator::GreaterThan),
            3 => Some(FilterOperator::LessThan),
            4 => Some(FilterOperator::GreaterThanOrEqual),
            5 => Some(FilterOperator::LessThanOrEqual),
            6 => Some(FilterOperator::Like),
            7 => Some(FilterOperator::Not),
            8 => Some(FilterOperator::Between),
            9 => Some(FilterOperator::InList),
            10 => Some(FilterOperator::And),
            11 => Some(FilterOperator::Or),
            12 => Some(FilterOperator::Cast),
            16 => Some(FilterOperator::BitwiseAnd),
            17 => Some(FilterOperator::BitwiseOr),
            _ => None,
        }
    }
}

/// Wire form of a `FilterOperator`: its number as an `i32`.
pub open spec fn filter_operator_encoding(v: FilterOperator) -> Seq<u8> {
    i32_encoding(v.spec_value())
}

/// A `FilterOperator` off the front of `s`. A number that stands for no value is
/// refused.
#[verifier::opaque]
pub open spec fn filter_operator_decoding(s: Seq<u8>) -> Result<(FilterOperator, Seq<u8>), StatusCode> {
    match i32_decoding(s) {
        Err(e) => Err(e),
        Ok((value, s)) => match FilterOperator::spec_from_i32(value) {
            None => Err(StatusCode::BadFilterOperatorInvalid),
            Some(v) => Ok((v, s)),
        },
    }
}

impl BinaryEncoder for FilterOperator {
    open spec fn encoding(v: FilterOperator) -> Seq<u8> {
        filter_operator_encoding(v)
    }

    open spec fn encodable(v: FilterOperator) -> bool {
        true
    }

    open spec fn within(v: FilterOperator, limits: DecodingLimits) -> bool {
        true
    }

    open spec fn decoding(s: Seq<u8>, limits: DecodingLimits) -> Result<
        (FilterOperator, Seq<u8>),
        StatusCode,
    > {
        filter_operator_decoding(s)
    }

    proof fn lemma_round_trip(v: FilterOperator, rest: Seq<u8>, limits: DecodingLimits) {
        reveal(filter_operator_decoding);
        lemma_i32_round_trip(v.spec_value(), rest);
    }

    fn byte_len(&self) -> (r: usize) {
        proof {
            lemma_i32_round_trip(self.spec_value(), Seq::empty());
        }
        4
    }

    fn encode(&self, stream: &mut Vec<u8>) -> (r: EncodingResult<usize>) {
        proof {
            lemma_i32_round_trip(self.spec_value(), Seq::empty());
        }
        write_i32(stream, self.value())
    }

    fn decode(stream: &mut ReadStream, limits: &DecodingLimits) -> (r: EncodingResult<Self>) {
        proof {
            reveal(filter_operator_decoding);
        }
        let value = read_i32(stream)?;
        match FilterOperator::from_i32(value) {
            Some(v) => Ok(v),
            None => Err(StatusCode::BadFilterOperatorInvalid),
        }
    }
}

/// The directions in which references are followed.
#[derive(Debug, Copy, Clone, PartialEq, Eq, Structural)]
pub enum BrowseDirection {
    Forward,
    Inverse,
    Both,
}

impl View for BrowseDirection {
    type V = BrowseDirection;

    open spec fn view(&self) -> BrowseDirection {
        *self
    }
}

impl BrowseDirection {
    /// The number that stands for the value on the wire.
    pub open spec fn spec_value(&self) -> i32 {
        match self {
            BrowseDirection::Forward => 0,
            BrowseDirection::Inverse => 1,
            BrowseDirection::Both => 2,
        }
    }

    /// The value that a number stands for, if it stands for one.
    pub open spec fn spec_from_i32(value: i32) -> Option<BrowseDirection> {
        if value == 0 {
            Some(BrowseDirection::Forward)
        } else if value == 1 {
            Some(BrowseDirection::Inverse)
        } else if value == 2 {
            Some(BrowseDirection::Both)
        } else {
            None
        }
    }

    #[verifier::when_used_as_spec(spec_value)]
    pub fn value(&self) -> (r: i32)
        ensures
            r == self.spec_value(),
    {
        match self {
            BrowseDirection::Forward => 0,
            BrowseDirection::Inverse => 1,
            BrowseDirection::Both => 2,
        }
    }

    #[verifier::when_used_as_spec(spec_from_i32)]
    pub fn from_i32(value: i32) -> (r: Option<BrowseDirection>)
        ensures
            r == Self::spec_from_i32(value),
    {
        match value {
            0 => Some(BrowseDirection::Forward),
            1 => Some(BrowseDirection::Inverse),
            2 => Some(BrowseDirection::Both),
            _ => None,
        }
    }
}

/// Wire form of a `BrowseDirection`: its number as an `i32`.
pub open spec fn browse_direction_encoding(v: BrowseDirection) -> Seq<u8> {
    i32_encoding(v.spec_value())
}

/// A `BrowseDirection` off the front of `s`. A number that stands for no value is
/// refused.
#[verifier::opaque]
pub open spec fn browse_direction_decoding(s: Seq<u8>) -> Result<(BrowseDirection, Seq<u8>), StatusCode> {
    match i32_decoding(s) {
        Err(e) => Err(e),
        Ok((value, s)) => match BrowseDirection::spec_from_i32(value) {
            None => Err(StatusCode::BadBrowseDirectionInvalid),
            Some(v) => Ok((v, s)),
        },
    }
}

impl BinaryEncoder for BrowseDirection {
    open spec fn encoding(v: BrowseDirection) -> Seq<u8> {
        browse_direction_encoding(v)
    }

    open spec fn encodable(v: BrowseDirection) -> bool {
        true
    }

    open spec fn within(v: BrowseDirection, limits: DecodingLimits) -> bool {
        true
    }

    open spec fn decoding(s: Seq<u8>, limits: DecodingLimits) -> Result<
        (BrowseDirection, Seq<u8>),
        StatusCode,
    > {
        browse_direction_decoding(s)
    }

    proof fn lemma_round_trip(v: BrowseDirection, rest: Seq<u8>, limits: DecodingLimits) {
        reveal(browse_direction_decoding);
        lemma_i32_round_trip(v.spec_value(), rest);
    }

    fn byte_len(&self) -> (r: usize) {
        proof {
            lemma_i32_round_trip(self.spec_value(), Seq::empty());
        }
        4
    }

    fn encode(&self, stream: &mut Vec<u8>) -> (r: EncodingResult<usize>) {
        proof {
            lemma_i32_round_trip(self.spec_value(), Seq::empty());
        }
        write_i32(stream, self.value())
    }

    fn decode(stream: &mut ReadStream, limits: &DecodingLimits) -> (r: EncodingResult<Self>) {
        proof {
            reveal(browse_direction_decoding);
        }
        let value = read_i32(stream)?;
        match BrowseDirection::from_i32(value) {
            Some(v) => Ok(v),
            None => Err(StatusCode::BadBrowseDirectionInvalid),
        }
    }
}

/// Whether a security token is issued anew or renewed.
#[derive(Debug, Copy, Clone, PartialEq, Eq, Structural)]
pub enum SecurityTokenRequestType {
    Issue,
    Renew,
}

impl View for SecurityTokenRequestType {
    type V = SecurityTokenRequestType;

    open spec fn view(&self) -> SecurityTokenRequestType {
        *self
    }
}

impl SecurityTokenRequestType {
    /// The number that stands for the value on the wire.
    pub open spec fn spec_value(&self) -> i32 {
        match self {
            SecurityTokenRequestType::Issue => 0,
            SecurityTokenRequestType::Renew => 1,
        }
    }

    /// The value that a number stands for, if it stands for one.
    pub open spec fn spec_from_i32(value: i32) -> Option<SecurityTokenRequestType> {
        if value == 0 {
            Some(SecurityTokenRequestType::Issue)
        } else if value == 1 {
            Some(SecurityTokenRequestType::Renew)
        } else {
            None
        }
    }

    #[verifier::when_used_as_spec(spec_value)]
    pub fn value(&self) -> (r: i32)
        ensures
            r == self.spec_value(),
    {
        match self {
            SecurityTokenRequestType::Issue => 0,
            SecurityTokenRequestType::Renew => 1,
        }
    }

    #[verifier::when_used_as_spec(spec_from_i32)]
    pub fn from_i32(value: i32) -> (r: Option<SecurityTokenRequestType>)
        ensures
            r == Self::spec_from_i32(value),
    {
        match value {
            0 => Some(SecurityTokenRequestType::Issue),
            1 => Some(SecurityTokenRequestType::Renew),
            _ => None,
        }
    }
}

/// Wire form of a `SecurityTokenRequestType`: its number as an `i32`.
pub open spec fn security_token_request_type_encoding(v: SecurityTokenRequestType) -> Seq<u8> {
    i32_encoding(v.spec_value())
}

/// A `SecurityTokenRequestType` off the front of `s`. A number that stands for no value is
/// refused.
#[verifier::opaque]
pub open spec fn security_token_request_type_decoding(s: Seq<u8>) -> Result<(SecurityTokenRequestType, Seq<u8>), StatusCode> {
    match i32_decoding(s) {
        Err(e) => Err(e),
        Ok((value, s)) => match SecurityTokenRequestType::spec_from_i32(value) {
            None => Err(StatusCode::BadDecodingError),
            Some(v) => Ok((v, s)),
        },
    }
}

impl BinaryEncoder for SecurityTokenRequestType {
    open spec fn encoding(v: SecurityTokenRequestType) -> Seq<u8> {
        security_token_request_type_encoding(v)
    }

    open spec fn encodable(v: SecurityTokenRequestType) -> bool {
        true
    }

    open spec fn within(v: SecurityTokenRequestType, limits: DecodingLimits) -> bool {
        true
    }

    open spec fn decoding(s: Seq<u8>, limits: DecodingLimits) -> Result<
        (SecurityTokenRequestType, Seq<u8>),
        StatusCode,
    > {
        security_token_request_type_decoding(s)
    }

    proof fn lemma_round_trip(v: SecurityTokenRequestType, rest: Seq<u8>, limits: DecodingLimits) {
        reveal(security_token_request_type_decoding);
        lemma_i32_round_trip(v.spec_value(), rest);
    }

    fn byte_len(&self) -> (r: usize) {
        proof {
            lemma_i32_round_trip(self.spec_value(), Seq::empty());
        }
        4
    }

    fn encode(&self, stream: &mut Vec<u8>) -> (r: EncodingResult<usize>) {
        proof {
            lemma_i32_round_trip(self.spec_value(), Seq::empty());
        }
        write_i32(stream, self.value())
    }

    fn decode(stream: &mut ReadStream, limits: &DecodingLimits) -> (r: EncodingResult<Self>) {
        proof {
            reveal(security_token_request_type_decoding);
        }
        let value = read_i32(stream)?;
        match SecurityTokenRequestType::from_i32(value) {
            Some(v) => Ok(v),
            None => Err(StatusCode::BadDecodingError),
        }
    }
}

/// How the messages of a secure channel are protected.
#[derive(Debug, Copy, Clone, PartialEq, Eq, Structural)]
pub enum MessageSecurityMode {
    Invalid,
    Unsecured,
    Sign,
    SignAndEncrypt,
}

impl View for MessageSecurityMode {
    type V = MessageSecurityMode;

    open spec fn view(&self) -> MessageSecurityMode {
        *self
    }
}

impl MessageSecurityMode {
    /// The number that stands for the value on the wire.
    pub open spec fn spec_value(&self) -> i32 {
        match self {
            MessageSecurityMode::Invalid => 0,
            MessageSecurityMode::Unsecured => 1,
            MessageSecurityMode::Sign => 2,
            MessageSecurityMode::SignAndEncrypt => 3,
        }
    }

    /// The value that a number stands for, if it stands for one.
    pub open spec fn spec_from_i32(value: i32) -> Option<MessageSecurityMode> {
        if value == 0 {
            Some(MessageSecurityMode::Invalid)
        } else if value == 1 {
            Some(MessageSecurityMode::Unsecured)
        } else if value == 2 {
            Some(MessageSecurityMode::Sign)
        } else if value == 3 {
            Some(MessageSecurityMode::SignAndEncrypt)
        } else {
            None
        }
    }

    #[verifier::when_used_as_spec(spec_value)]
    pub fn value(&self) -> (r: i32)
        ensures
            r == self.spec_value(),
    {
        match self {
            MessageSecurityMode::Invalid => 0,
            MessageSecurityMode::Unsecured => 1,
            MessageSecurityMode::Sign => 2,
            MessageSecurityMode::SignAndEncrypt => 3,
        }
    }

    #[verifier::when_used_as_spec(spec_from_i32)]
    pub fn from_i32(value: i32) -> (r: Option<MessageSecurityMode>)
        ensures
            r == Self::spec_from_i32(value),
    {
        match value {
            0 => Some(MessageSecurityMode::Invalid),
            1 => Some(MessageSecurityMode::Unsecured),
            2 => Some(MessageSecurityMode::Sign),
            3 => Some(MessageSecurityMode::SignAndEncrypt),
            _ => None,
        }
    }
}

/// Wire form of a `MessageSecurityMode`: its number as an `i32`.
pub open spec fn message_security_mode_encoding(v: MessageSecurityMode) -> Seq<u8> {
    i32_encoding(v.spec_value())
}

/// A `MessageSecurityMode` off the front of `s`. A number that stands for no value is
/// refused.
#[verifier::opaque]
pub open spec fn message_security_mode_decoding(s: Seq<u8>) -> Result<(MessageSecurityMode, Seq<u8>), StatusCode> {
    match i32_decoding(s) {
        Err(e) => Err(e),
        Ok((value, s)) => match MessageSecurityMode::spec_from_i32(value) {
            None => Err(StatusCode::BadDecodingError),
            Some(v) => Ok((v, s)),
        },
    }
}

impl BinaryEncoder for MessageSecurityMode {
    open spec fn encoding(v: MessageSecurityMode) -> Seq<u8> {
        message_security_mode_encoding(v)
    }

    open spec fn encodable(v: MessageSecurityMode) -> bool {
        true
    }

    open spec fn within(v: MessageSecurityMode, limits: DecodingLimits) -> bool {
        true
    }

    open spec fn decoding(s: Seq<u8>, limits: DecodingLimits) -> Result<
        (MessageSecurityMode, Seq<u8>),
        StatusCode,
    > {
        message_security_mode_decoding(s)
    }

    proof fn lemma_round_trip(v: MessageSecurityMode, rest: Seq<u8>, limits: DecodingLimits) {
        reveal(message_security_mode_decoding);
        lemma_i32_round_trip(v.spec_value(), rest);
    }

    fn byte_len(&self) -> (r: usize) {
        proof {
            lemma_i32_round_trip(self.spec_value(), Seq::empty());
        }
        4
    }

    fn encode(&self, stream: &mut Vec<u8>) -> (r: EncodingResult<usize>) {
        proof {
            lemma_i32_round_trip(self.spec_value(), Seq::empty());
        }
        write_i32(stream, self.value())
    }

    fn decode(stream: &mut ReadStream, limits: &DecodingLimits) -> (r: EncodingResult<Self>) {
        proof {
            reveal(message_security_mode_decoding);
        }
        let value = read_i32(stream)?;
        match MessageSecurityMode::from_i32(value) {
            Some(v) => Ok(v),
            None => Err(StatusCode::BadDecodingError),
        }
    }
}

} // verus!
