use opcua::byte_string::ByteString;
use opcua::date_time::DateTime;
use opcua::diagnostic_info::DiagnosticInfo;
use opcua::encoding::{BinaryEncoder, DecodingLimits, ReadStream};
use opcua::extension_object::ExtensionObject;
use opcua::localized_text::LocalizedText;
use opcua::node_id::NodeId;
use opcua::node_ids::ObjectId;
use opcua::qualified_name::QualifiedName;
use opcua::service_types::attribute_operand::AttributeOperand;
use opcua::service_types::browse_next_request::BrowseNextRequest;
use opcua::service_types::close_secure_channel_request::CloseSecureChannelRequest;
use opcua::service_types::close_session_request::CloseSessionRequest;
use opcua::service_types::content_filter_element_result::ContentFilterElementResult;
use opcua::service_types::content_filter_result::ContentFilterResult;
use opcua::service_types::datagram_connection_transport_data_type::DatagramConnectionTransportDataType;
use opcua::service_types::delete_nodes_item::DeleteNodesItem;
use opcua::service_types::delete_nodes_request::DeleteNodesRequest;
use opcua::service_types::delete_nodes_response::DeleteNodesResponse;
use opcua::service_types::json_content_masks::{
    JsonDataSetMessageContentMask, JsonNetworkMessageContentMask,
};
use opcua::service_types::json_data_set_reader_message_data_type::JsonDataSetReaderMessageDataType;
use opcua::service_types::json_writer_group_message_data_type::JsonWriterGroupMessageDataType;
use opcua::service_types::open_secure_channel_response::OpenSecureChannelResponse;
use opcua::service_types::channel_security_token::ChannelSecurityToken;
use opcua::service_types::publish_request::PublishRequest;
use opcua::service_types::relative_path::{RelativePath, RelativePathElement};
use opcua::service_types::set_triggering_response::SetTriggeringResponse;
use opcua::service_types::simple_attribute_operand::SimpleAttributeOperand;
use opcua::service_types::structure_field::StructureField;
use opcua::service_types::subscription_acknowledgement::SubscriptionAcknowledgement;
use opcua::service_types::{
    ApplicationType, BrowseDirection, DataChangeTrigger, FilterOperator, MessageInfo,
    MessageSecurityMode, NodeClass, RequestHeader, ResponseHeader, SecurityTokenRequestType,
    TimestampsToReturn, UserTokenPolicy, UserTokenType,
};
use opcua::status_codes::StatusCode;
use opcua::string::UAString;
use opcua::supported_message::SupportedMessage;
use std::fmt::Debug;

fn limits() -> DecodingLimits {
    DecodingLimits::default()
}

fn round_trip<T: BinaryEncoder + PartialEq + Debug>(value: T) -> Vec<u8> {
    let mut stream = vec![0xeeu8];
    let size = value.encode(&mut stream).unwrap();
    assert_eq!(size, stream.len() - 1);
    assert_eq!(value.byte_len(), size);
    stream.push(0xdd);
    let mut input = ReadStream::new(&stream[1..]);
    let decoded = T::decode(&mut input, &limits()).unwrap();
    assert_eq!(decoded, value);
    assert_eq!(input.remaining(), 1);
    // every proper prefix ends too early
    for n in 0..size {
        let mut input = ReadStream::new(&stream[1..1 + n]);
        assert!(T::decode(&mut input, &limits()).is_err());
    }
    stream[1..1 + size].to_vec()
}

fn request_header(handle: u32) -> RequestHeader {
    RequestHeader {
        authentication_token: NodeId::new_string(2, "session"),
        timestamp: DateTime::ymd_hms(2020, 2, 29, 1, 2, 3),
        request_handle: handle,
        return_diagnostics: 0x3ff,
        audit_entry_id: UAString::from_str("audit"),
        timeout_hint: 5000,
        additional_header: ExtensionObject::null(),
    }
}

fn response_header(handle: u32) -> ResponseHeader {
    ResponseHeader {
        timestamp: DateTime::ymd_hms(2020, 2, 29, 1, 2, 4),
        request_handle: handle,
        service_result: StatusCode::BadNothingToDo,
        service_diagnostics: DiagnosticInfo {
            symbolic_id: Some(0),
            namespace_uri: None,
            locale: None,
            localized_text: Some(1),
            additional_info: None,
            inner_status_code: None,
            inner_diagnostic_info: None,
        },
        string_table: Some(vec![UAString::from_str("a"), UAString::from_str("b")]),
        additional_header: ExtensionObject::null(),
    }
}

#[test]
fn enumerations_travel_as_their_numbers() {
    assert_eq!(round_trip(UserTokenType::IssuedToken), vec![3, 0, 0, 0]);
    assert_eq!(round_trip(ApplicationType::ClientAndServer), vec![2, 0, 0, 0]);
    assert_eq!(round_trip(TimestampsToReturn::Neither), vec![3, 0, 0, 0]);
    assert_eq!(round_trip(NodeClass::View), vec![128, 0, 0, 0]);
    assert_eq!(round_trip(DataChangeTrigger::StatusValueTimestamp), vec![2, 0, 0, 0]);
    assert_eq!(round_trip(FilterOperator::BitwiseOr), vec![17, 0, 0, 0]);
    assert_eq!(round_trip(BrowseDirection::Inverse), vec![1, 0, 0, 0]);
    assert_eq!(round_trip(SecurityTokenRequestType::Renew), vec![1, 0, 0, 0]);
    assert_eq!(round_trip(MessageSecurityMode::SignAndEncrypt), vec![3, 0, 0, 0]);
    for value in 0..4 {
        assert_eq!(UserTokenType::from_i32(value).unwrap().value(), value);
        assert_eq!(ApplicationType::from_i32(value).unwrap().value(), value);
        assert_eq!(TimestampsToReturn::from_i32(value).unwrap().value(), value);
        assert_eq!(MessageSecurityMode::from_i32(value).unwrap().value(), value);
    }
    for value in 0..3 {
        assert_eq!(DataChangeTrigger::from_i32(value).unwrap().value(), value);
        assert_eq!(BrowseDirection::from_i32(value).unwrap().value(), value);
    }
    for value in (0..13).chain(16..18) {
        assert_eq!(FilterOperator::from_i32(value).unwrap().value(), value);
    }
}

#[test]
fn unknown_numbers_of_enumerations_are_refused() {
    let unknown = [99u8, 0, 0, 0];
    let negative = [0xffu8, 0xff, 0xff, 0xff];
    let l = limits();
    for bytes in [&unknown, &negative] {
        assert_eq!(UserTokenType::decode(&mut ReadStream::new(bytes), &l), Err(StatusCode::BadDecodingError));
        assert_eq!(ApplicationType::decode(&mut ReadStream::new(bytes), &l), Err(StatusCode::BadDecodingError));
        assert_eq!(
            TimestampsToReturn::decode(&mut ReadStream::new(bytes), &l),
            Err(StatusCode::BadTimestampsToReturnInvalid)
        );
        assert_eq!(NodeClass::decode(&mut ReadStream::new(bytes), &l), Err(StatusCode::BadNodeClassInvalid));
        assert_eq!(
            DataChangeTrigger::decode(&mut ReadStream::new(bytes), &l),
            Err(StatusCode::BadUnexpectedError)
        );
        assert_eq!(
            FilterOperator::decode(&mut ReadStream::new(bytes), &l),
            Err(StatusCode::BadFilterOperatorInvalid)
        );
        assert_eq!(
            BrowseDirection::decode(&mut ReadStream::new(bytes), &l),
            Err(StatusCode::BadBrowseDirectionInvalid)
        );
        assert_eq!(
            SecurityTokenRequestType::decode(&mut ReadStream::new(bytes), &l),
            Err(StatusCode::BadDecodingError)
        );
        assert_eq!(
            MessageSecurityMode::decode(&mut ReadStream::new(bytes), &l),
            Err(StatusCode::BadDecodingError)
        );
    }
    assert_eq!(FilterOperator::from_i32(13), None);
    assert_eq!(FilterOperator::from_i32(15), None);
    assert_eq!(FilterOperator::from_i32(18), None);
    assert_eq!(
        UserTokenType::decode(&mut ReadStream::new(&[1, 0, 0]), &l),
        Err(StatusCode::BadDecodingError)
    );
}

#[test]
fn node_class_from_i32() {
    assert_eq!(NodeClass::from_i32(0), Some(NodeClass::Unspecified));
    assert_eq!(NodeClass::from_i32(1), Some(NodeClass::Object));
    assert_eq!(NodeClass::from_i32(2), Some(NodeClass::Variable));
    assert_eq!(NodeClass::from_i32(4), Some(NodeClass::Method));
    assert_eq!(NodeClass::from_i32(8), Some(NodeClass::ObjectType));
    assert_eq!(NodeClass::from_i32(16), Some(NodeClass::VariableType));
    assert_eq!(NodeClass::from_i32(32), Some(NodeClass::ReferenceType));
    assert_eq!(NodeClass::from_i32(64), Some(NodeClass::DataType));
    assert_eq!(NodeClass::from_i32(128), Some(NodeClass::View));
    assert_eq!(NodeClass::from_i32(3), None);
    assert_eq!(NodeClass::from_i32(-1), None);
    assert_eq!(NodeClass::from_i32(256), None);
}

#[test]
fn user_token_policies() {
    let anonymous = UserTokenPolicy::new_anonymous();
    assert_eq!(anonymous.policy_id, UAString::from_str("anonymous"));
    assert_eq!(anonymous.token_type, UserTokenType::Anonymous);
    assert!(anonymous.issued_token_type.is_null());
    assert!(anonymous.issuer_endpoint_url.is_null());
    assert!(anonymous.security_policy_uri.is_null());
    let user_pass = UserTokenPolicy::new_user_pass();
    assert_eq!(user_pass.policy_id, UAString::from_str("userpass"));
    assert_eq!(user_pass.token_type, UserTokenType::Username);
    assert!(user_pass.issued_token_type.is_null());
    let bytes = round_trip(user_pass);
    assert_eq!(&bytes[0..16], &[8, 0, 0, 0, b'u', b's', b'e', b'r', b'p', b'a', b's', b's', 1, 0, 0, 0]);
    assert_eq!(bytes.len(), 28);
    round_trip(anonymous);
}

#[test]
fn request_header_new() {
    let token = NodeId::new_numeric(3, 1234);
    let now = DateTime::ymd(2021, 1, 1);
    let header = RequestHeader::new(&token, &now, 42);
    assert_eq!(header.authentication_token, token);
    assert_eq!(header.timestamp, now);
    assert_eq!(header.request_handle, 42);
    assert_eq!(header.return_diagnostics, 0);
    assert!(header.audit_entry_id.is_null());
    assert_eq!(header.timeout_hint, 0);
    assert!(header.additional_header.is_null());
    let bytes = round_trip(header);
    // node id, time stamp, handle, diagnostics, audit entry, timeout, additional header
    assert_eq!(bytes.len(), 4 + 8 + 4 + 4 + 4 + 4 + 3);
    assert_eq!(&bytes[0..4], &[1, 3, 0xd2, 0x04]);
    assert_eq!(&bytes[12..16], &[42, 0, 0, 0]);
}

#[test]
fn response_header_constructors() {
    let now = DateTime::ymd(2021, 1, 1);
    let header = ResponseHeader::new_service_result(&now, &request_header(77), StatusCode::BadTimeout);
    assert_eq!(header.timestamp, now);
    assert_eq!(header.request_handle, 77);
    assert_eq!(header.service_result, StatusCode::BadTimeout);
    assert_eq!(header.service_diagnostics, DiagnosticInfo::new());
    assert_eq!(header.string_table, None);
    assert!(header.additional_header.is_null());
    let bytes = round_trip(header);
    assert_eq!(bytes.len(), 8 + 4 + 4 + 1 + 4 + 3);
    assert_eq!(&bytes[8..16], &[77, 0, 0, 0, 0, 0, 0x0a, 0x80]);

    let null = ResponseHeader::null();
    assert_eq!(null.request_handle, 0);
    assert_eq!(null.service_result, StatusCode::Good);
    assert_eq!(null.service_diagnostics, DiagnosticInfo::new());
    assert_eq!(null.string_table, None);
    assert!(null.additional_header.is_null());
    assert!(null.timestamp.year() > 2000);
    assert_eq!(ResponseHeader::null_at(&now).timestamp, now);
    round_trip(response_header(5));
}

#[test]
fn headers_that_are_malformed() {
    let l = limits();
    let mut bytes = Vec::new();
    response_header(1).encode(&mut bytes).unwrap();
    // a status code that is not known
    bytes[12] = 0x55;
    assert_eq!(ResponseHeader::decode(&mut ReadStream::new(&bytes), &l), Err(StatusCode::BadDecodingError));
    let mut bytes = Vec::new();
    request_header(1).encode(&mut bytes).unwrap();
    // a node id with a layout that does not exist
    bytes[0] = 9;
    assert_eq!(RequestHeader::decode(&mut ReadStream::new(&bytes), &l), Err(StatusCode::BadDecodingError));
    // an audit entry longer than the limit
    let mut bytes = Vec::new();
    request_header(1).encode(&mut bytes).unwrap();
    let mut small = limits();
    small.max_string_length = 4;
    assert_eq!(
        RequestHeader::decode(&mut ReadStream::new(&bytes), &small),
        Err(StatusCode::BadEncodingLimitsExceeded)
    );
}

#[test]
fn messages_round_trip() {
    round_trip(CloseSecureChannelRequest { request_header: request_header(1) });
    let bytes = round_trip(CloseSessionRequest {
        request_header: request_header(2),
        delete_subscriptions: true,
    });
    assert_eq!(bytes[bytes.len() - 1], 1);
    round_trip(BrowseNextRequest {
        request_header: request_header(3),
        release_continuation_points: false,
        continuation_points: Some(vec![ByteString::from_bytes(&[1, 2, 3]), ByteString::null()]),
    });
    round_trip(BrowseNextRequest {
        request_header: request_header(3),
        release_continuation_points: true,
        continuation_points: None,
    });
    round_trip(DeleteNodesRequest {
        request_header: request_header(4),
        nodes_to_delete: Some(vec![
            DeleteNodesItem { node_id: NodeId::new_numeric(1, 2), delete_target_references: true },
            DeleteNodesItem { node_id: NodeId::new_string(1, "n"), delete_target_references: false },
        ]),
    });
    round_trip(DeleteNodesResponse {
        response_header: response_header(4),
        results: Some(vec![StatusCode::Good, StatusCode::BadNodeIdUnknown]),
        diagnostic_infos: Some(vec![DiagnosticInfo::new()]),
    });
    round_trip(PublishRequest {
        request_header: request_header(5),
        subscription_acknowledgements: Some(vec![
            SubscriptionAcknowledgement { subscription_id: 1, sequence_number: 10 },
            SubscriptionAcknowledgement { subscription_id: 2, sequence_number: 20 },
        ]),
    });
    round_trip(SetTriggeringResponse {
        response_header: response_header(6),
        add_results: Some(vec![StatusCode::Good]),
        add_diagnostic_infos: None,
        remove_results: Some(vec![]),
        remove_diagnostic_infos: Some(vec![DiagnosticInfo::new(), DiagnosticInfo::new()]),
    });
    round_trip(OpenSecureChannelResponse {
        response_header: response_header(7),
        server_protocol_version: 0,
        security_token: ChannelSecurityToken {
            channel_id: 1,
            token_id: 2,
            created_at: DateTime::ymd(2020, 1, 1),
            revised_lifetime: 60000,
        },
        server_nonce: ByteString::from_bytes(&[7; 32]),
    });
}

#[test]
fn data_types_round_trip() {
    let path = RelativePath {
        elements: Some(vec![RelativePathElement {
            reference_type_id: NodeId::new_numeric(0, 35),
            is_inverse: false,
            include_subtypes: true,
            target_name: QualifiedName::new(1, "Target"),
        }]),
    };
    round_trip(path.clone());
    let bytes = round_trip(AttributeOperand {
        node_id: NodeId::new_numeric(0, 85),
        alias: UAString::from_str("a"),
        browse_path: path,
        attribute_id: 13,
        index_range: UAString::null(),
    });
    assert_eq!(&bytes[0..7], &[0, 85, 1, 0, 0, 0, b'a']);
    round_trip(SimpleAttributeOperand {
        type_definition_id: NodeId::new_numeric(0, 2041),
        browse_path: Some(vec![QualifiedName::new(0, "Severity")]),
        attribute_id: 13,
        index_range: UAString::from_str("1:2"),
    });
    round_trip(ContentFilterResult {
        element_results: Some(vec![ContentFilterElementResult {
            status_code: StatusCode::BadFilterOperatorInvalid,
            operand_status_codes: Some(vec![StatusCode::Good]),
            operand_diagnostic_infos: None,
        }]),
        element_diagnostic_infos: Some(vec![]),
    });
    round_trip(DatagramConnectionTransportDataType { discovery_address: ExtensionObject::null() });
    let bytes = round_trip(JsonDataSetReaderMessageDataType {
        network_message_content_mask: JsonNetworkMessageContentMask { bits: 0x21 },
        data_set_message_content_mask: JsonDataSetMessageContentMask { bits: 0xffff_ffff },
    });
    assert_eq!(bytes, vec![0x21, 0, 0, 0, 0xff, 0xff, 0xff, 0xff]);
    round_trip(JsonWriterGroupMessageDataType {
        network_message_content_mask: JsonNetworkMessageContentMask { bits: 3 },
    });
    let bytes = round_trip(StructureField {
        name: UAString::from_str("f"),
        description: LocalizedText::new("en", "field"),
        data_type: NodeId::new_numeric(0, 7),
        value_rank: -1,
        array_dimensions: Some(vec![2, 3]),
        max_string_length: 0,
        is_optional: true,
    });
    assert_eq!(&bytes[bytes.len() - 17..], &[2, 0, 0, 0, 2, 0, 0, 0, 3, 0, 0, 0, 0, 0, 0, 0, 1]);
}

#[test]
fn fields_travel_in_the_order_of_their_declaration() {
    let mut stream = Vec::new();
    let request = CloseSessionRequest {
        request_header: RequestHeader::new(&NodeId::null(), &DateTime::epoch(), 0x01020304),
        delete_subscriptions: true,
    };
    request.encode(&mut stream).unwrap();
    assert_eq!(
        stream,
        vec![
            0, 0, // authentication token
            0, 0, 0, 0, 0, 0, 0, 0, // time stamp
            4, 3, 2, 1, // request handle
            0, 0, 0, 0, // return diagnostics
            0xff, 0xff, 0xff, 0xff, // audit entry id
            0, 0, 0, 0, // timeout hint
            0, 0, 0, // additional header
            1, // delete subscriptions
        ]
    );
}

#[test]
fn object_ids_of_messages() {
    assert_eq!(
        CloseSessionRequest { request_header: request_header(1), delete_subscriptions: false }.object_id(),
        ObjectId::CloseSessionRequest_Encoding_DefaultBinary
    );
    assert_eq!(
        CloseSecureChannelRequest { request_header: request_header(1) }.node_id(),
        NodeId::new_numeric(0, 452)
    );
    assert_eq!(ObjectId::OpenSecureChannelRequest_Encoding_DefaultBinary.value(), 446);
    assert_eq!(ObjectId::from_u32(449), Some(ObjectId::OpenSecureChannelResponse_Encoding_DefaultBinary));
    assert_eq!(ObjectId::from_u32(1), None);
    assert_eq!(ObjectId::PublishRequest_Encoding_DefaultBinary.as_node_id(), NodeId::new_numeric(0, 826));
    assert_eq!(
        ObjectId::from_node_id(&NodeId::new_numeric(0, 536)),
        Some(ObjectId::BrowseNextResponse_Encoding_DefaultBinary)
    );
    assert_eq!(ObjectId::from_node_id(&NodeId::new_numeric(1, 536)), None);
    assert_eq!(ObjectId::from_node_id(&NodeId::new_string(0, "536")), None);
    for value in [446, 449, 452, 455, 461, 473, 500, 503, 533, 536, 609, 778, 826, 14844] {
        assert_eq!(ObjectId::from_u32(value).unwrap().value(), value);
    }
}

#[test]
fn supported_messages() {
    let l = limits();
    let request = SupportedMessage::CloseSessionRequest(Box::new(CloseSessionRequest {
        request_header: request_header(31),
        delete_subscriptions: false,
    }));
    assert_eq!(request.request_handle(), 31);
    assert!(request.is_request());
    assert_eq!(request.object_id(), ObjectId::CloseSessionRequest_Encoding_DefaultBinary);
    assert_eq!(request.node_id(), NodeId::new_numeric(0, 473));
    let response = SupportedMessage::DeleteNodesResponse(Box::new(DeleteNodesResponse {
        response_header: response_header(32),
        results: None,
        diagnostic_infos: None,
    }));
    assert_eq!(response.request_handle(), 32);
    assert!(!response.is_request());
    for message in [request, response] {
        let mut stream = Vec::new();
        let size = message.encode(&mut stream).unwrap();
        assert_eq!(size, stream.len());
        assert_eq!(message.byte_len(), size);
        let mut input = ReadStream::new(&stream);
        assert_eq!(
            SupportedMessage::decode_by_object_id(&mut input, message.object_id(), &l),
            Ok(message)
        );
        assert_eq!(input.remaining(), 0);
    }
    assert_eq!(
        SupportedMessage::decode_by_object_id(
            &mut ReadStream::new(&[0; 64]),
            ObjectId::StructureField_Encoding_DefaultBinary,
            &l
        ),
        Err(StatusCode::BadServiceUnsupported)
    );
}
