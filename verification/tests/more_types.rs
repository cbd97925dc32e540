use opcua::attribute_masks::{AttributesMask, WriteMask};
use opcua::byte_string::ByteString;
use opcua::constants::{
    DEFAULT_OPC_UA_SERVER_PORT, MAX_CERTIFICATE_LENGTH, SECURITY_POLICY_BASIC_128_RSA_15,
    SECURITY_POLICY_BASIC_128_RSA_15_URI, SECURITY_POLICY_BASIC_256, SECURITY_POLICY_BASIC_256_SHA_256,
    SECURITY_POLICY_BASIC_256_SHA_256_URI, SECURITY_POLICY_BASIC_256_URI, SECURITY_POLICY_NONE,
    SECURITY_POLICY_NONE_URI,
};
use opcua::date_time::DateTime;
use opcua::diagnostic_info::DiagnosticInfo;
use opcua::encoding::{BinaryEncoder, DecodingLimits, ReadStream};
use opcua::expanded_node_id::ExpandedNodeId;
use opcua::extension_object::ExtensionObject;
use opcua::guid::Guid;
use opcua::localized_text::LocalizedText;
use opcua::node_id::NodeId;
use opcua::node_ids::ObjectId;
use opcua::profiles::{
    SECURITY_USER_TOKEN_POLICY_ANONYMOUS, SECURITY_USER_TOKEN_POLICY_USERPASS,
    TRANSPORT_PROFILE_URI_BINARY,
};
use opcua::qualified_name::QualifiedName;
use opcua::service_types::application_description::ApplicationDescription;
use opcua::service_types::browse_next_response::BrowseNextResponse;
use opcua::service_types::browse_result::BrowseResult;
use opcua::service_types::configuration_version_data_type::ConfigurationVersionDataType;
use opcua::service_types::create_session_request::CreateSessionRequest;
use opcua::service_types::data_set_meta_data_type::DataSetMetaDataType;
use opcua::service_types::data_set_reader_data_type::DataSetReaderDataType;
use opcua::service_types::data_set_writer_data_type::DataSetWriterDataType;
use opcua::service_types::endpoint_description::EndpointDescription;
use opcua::service_types::enum_definition::EnumDefinition;
use opcua::service_types::enum_description::EnumDescription;
use opcua::service_types::enum_field::EnumField;
use opcua::service_types::field_meta_data::FieldMetaData;
use opcua::service_types::key_value_pair::KeyValuePair;
use opcua::service_types::pub_sub_connection_data_type::PubSubConnectionDataType;
use opcua::service_types::reader_group_data_type::ReaderGroupDataType;
use opcua::service_types::reference_description::ReferenceDescription;
use opcua::service_types::simple_type_description::SimpleTypeDescription;
use opcua::service_types::structure_definition::StructureDefinition;
use opcua::service_types::structure_description::StructureDescription;
use opcua::service_types::structure_field::StructureField;
use opcua::service_types::structure_type::StructureType;
use opcua::service_types::writer_group_data_type::WriterGroupDataType;
use opcua::service_types::{
    ApplicationType, MessageInfo, MessageSecurityMode, NodeClass, RequestHeader, ResponseHeader,
    UserTokenPolicy,
};
use opcua::status_codes::StatusCode;
use opcua::string::UAString;
use opcua::variant::Variant;
use std::fmt::Debug;

fn limits() -> DecodingLimits {
    DecodingLimits::default()
}

fn round_trip<T: BinaryEncoder + PartialEq + Debug>(value: T) -> Vec<u8> {
    let mut stream = vec![0xeeu8];
    let size = value.encode(&mut stream).unwrap();
    assert_eq!(size, stream.len() - 1);
    assert_eq!(value.byte_len(), size);
    stream.push(0xdd);
    let mut input = ReadStream::new(&stream[1..]);
    let decoded = T::decode(&mut input, &limits()).unwrap();
    assert_eq!(decoded, value);
    assert_eq!(input.remaining(), 1);
    for n in 0..size {
        let mut input = ReadStream::new(&stream[1..1 + n]);
        assert!(T::decode(&mut input, &limits()).is_err());
    }
    stream[1..1 + size].to_vec()
}

fn application() -> ApplicationDescription {
    ApplicationDescription {
        application_uri: UAString::from_str("urn:app"),
        product_uri: UAString::from_str("urn:product"),
        application_name: LocalizedText::new("en", "App"),
        application_type: ApplicationType::Client,
        gateway_server_uri: UAString::null(),
        discovery_profile_uri: UAString::null(),
        discovery_urls: Some(vec![UAString::from_str("opc.tcp://localhost:4840/")]),
    }
}

fn endpoint() -> EndpointDescription {
    EndpointDescription {
        endpoint_url: UAString::from_str("opc.tcp://localhost:4840/"),
        server: application(),
        server_certificate: ByteString::from_bytes(&[1, 2, 3]),
        security_mode: MessageSecurityMode::Sign,
        security_policy_uri: UAString::from_str(SECURITY_POLICY_BASIC_256_URI),
        user_identity_tokens: Some(vec![UserTokenPolicy::new_anonymous(), UserTokenPolicy::new_user_pass()]),
        transport_profile_uri: UAString::from_str(TRANSPORT_PROFILE_URI_BINARY),
        security_level: 3,
    }
}

fn property(name: &str, value: Variant) -> KeyValuePair {
    KeyValuePair { key: QualifiedName::new(0, name), value }
}

fn meta_data() -> DataSetMetaDataType {
    DataSetMetaDataType {
        namespaces: Some(vec![UAString::from_str("urn:ns")]),
        structure_data_types: Some(vec![StructureDescription {
            data_type_id: NodeId::new_numeric(2, 1),
            name: QualifiedName::new(2, "S"),
            structure_definition: StructureDefinition {
                default_encoding_id: NodeId::new_numeric(2, 2),
                base_data_type: NodeId::new_numeric(0, 22),
                structure_type: StructureType::StructureWithOptionalFields,
                fields: Some(vec![StructureField {
                    name: UAString::from_str("f"),
                    description: LocalizedText::null(),
                    data_type: NodeId::new_numeric(0, 6),
                    value_rank: -1,
                    array_dimensions: None,
                    max_string_length: 0,
                    is_optional: true,
                }]),
            },
        }]),
        enum_data_types: Some(vec![EnumDescription {
            data_type_id: NodeId::new_numeric(2, 3),
            name: QualifiedName::new(2, "E"),
            enum_definition: EnumDefinition {
                fields: Some(vec![EnumField {
                    value: -1,
                    display_name: LocalizedText::new("en", "Minus one"),
                    description: LocalizedText::null(),
                    name: UAString::from_str("MinusOne"),
                }]),
            },
            built_in_type: 6,
        }]),
        simple_data_types: Some(vec![SimpleTypeDescription {
            data_type_id: NodeId::new_numeric(2, 4),
            name: QualifiedName::new(2, "T"),
            base_data_type: NodeId::new_numeric(0, 7),
            built_in_type: 7,
        }]),
        name: UAString::from_str("set"),
        description: LocalizedText::new("en", "A data set"),
        fields: Some(vec![FieldMetaData {
            name: UAString::from_str("field"),
            description: LocalizedText::null(),
            field_flags: 1,
            built_in_type: 11,
            data_type: NodeId::new_numeric(0, 11),
            value_rank: 1,
            array_dimensions: Some(vec![3]),
            max_string_length: 0,
            data_set_field_id: Guid { data1: 1, data2: 2, data3: 3, data4: 4 },
            properties: Some(vec![property("unit", Variant::String(UAString::from_str("m")))]),
        }]),
        data_set_class_id: Guid::null(),
        configuration_version: ConfigurationVersionDataType { major_version: 1, minor_version: 2 },
    }
}

fn reader() -> DataSetReaderDataType {
    DataSetReaderDataType {
        name: UAString::from_str("reader"),
        enabled: true,
        publisher_id: Variant::UInt16(7),
        writer_group_id: 1,
        data_set_writer_id: 2,
        data_set_meta_data: meta_data(),
        data_set_field_content_mask: 0x3f,
        message_receive_timeout: 1000.0f64.to_bits(),
        key_frame_count: 10,
        header_layout_uri: UAString::null(),
        security_mode: MessageSecurityMode::Unsecured,
        security_group_id: UAString::null(),
        security_key_services: None,
        data_set_reader_properties: Some(vec![]),
        transport_settings: ExtensionObject::null(),
        message_settings: ExtensionObject::null(),
        subscribed_data_set: ExtensionObject::null(),
    }
}

fn reader_group() -> ReaderGroupDataType {
    ReaderGroupDataType {
        name: UAString::from_str("readers"),
        enabled: false,
        security_mode: MessageSecurityMode::SignAndEncrypt,
        security_group_id: UAString::from_str("group"),
        security_key_services: Some(vec![endpoint()]),
        max_network_message_size: 1400,
        group_properties: Some(vec![property("a", Variant::Boolean(true)), property("b", Variant::Empty)]),
        transport_settings: ExtensionObject::null(),
        message_settings: ExtensionObject::null(),
        data_set_readers: Some(vec![reader(), reader()]),
    }
}

fn writer_group() -> WriterGroupDataType {
    WriterGroupDataType {
        name: UAString::from_str("writers"),
        enabled: true,
        security_mode: MessageSecurityMode::Unsecured,
        security_group_id: UAString::null(),
        security_key_services: None,
        max_network_message_size: 1400,
        group_properties: None,
        writer_group_id: 5,
        publishing_interval: 100.0f64.to_bits(),
        keep_alive_time: 1000.0f64.to_bits(),
        priority: 9,
        locale_ids: Some(vec![UAString::from_str("en")]),
        header_layout_uri: UAString::from_str("urn:layout"),
        transport_settings: ExtensionObject::null(),
        message_settings: ExtensionObject::null(),
        data_set_writers: Some(vec![DataSetWriterDataType {
            name: UAString::from_str("writer"),
            enabled: true,
            data_set_writer_id: 2,
            data_set_field_content_mask: 1,
            key_frame_count: 10,
            data_set_name: UAString::from_str("set"),
            data_set_writer_properties: None,
            transport_settings: ExtensionObject::null(),
            message_settings: ExtensionObject::null(),
        }]),
    }
}

#[test]
fn expanded_node_ids() {
    assert_eq!(round_trip(ExpandedNodeId::null()), vec![0, 0]);
    assert_eq!(round_trip(ExpandedNodeId::new(NodeId::new_numeric(1, 300))), vec![1, 1, 0x2c, 1]);
    let with_uri = ExpandedNodeId {
        node_id: NodeId::new_numeric(0, 5),
        namespace_uri: UAString::from_str("u"),
        server_index: 0,
    };
    assert_eq!(round_trip(with_uri), vec![0x80, 5, 1, 0, 0, 0, b'u']);
    let with_server = ExpandedNodeId {
        node_id: NodeId::new_string(2, "s"),
        namespace_uri: UAString::null(),
        server_index: 9,
    };
    assert_eq!(round_trip(with_server), vec![0x43, 2, 0, 1, 0, 0, 0, b's', 9, 0, 0, 0]);
    let with_both = ExpandedNodeId {
        node_id: NodeId::new_numeric(300, 70000),
        namespace_uri: UAString::from_str(""),
        server_index: u32::MAX,
    };
    assert_eq!(
        round_trip(with_both),
        vec![0xc2, 0x2c, 1, 0x70, 0x11, 1, 0, 0, 0, 0, 0, 0xff, 0xff, 0xff, 0xff]
    );
    let l = limits();
    assert_eq!(
        ExpandedNodeId::decode(&mut ReadStream::new(&[0x06, 0, 0]), &l),
        Err(StatusCode::BadDecodingError)
    );
    // a URI that is announced and is the null string
    assert_eq!(
        ExpandedNodeId::decode(&mut ReadStream::new(&[0x80, 5, 0xff, 0xff, 0xff, 0xff]), &l),
        Ok(ExpandedNodeId::new(NodeId::new_numeric(0, 5)))
    );
}

#[test]
fn browse_next_response() {
    let response = BrowseNextResponse {
        response_header: ResponseHeader::null_at(&DateTime::ymd(2020, 1, 1)),
        results: Some(vec![BrowseResult {
            status_code: StatusCode::Good,
            continuation_point: ByteString::null(),
            references: Some(vec![ReferenceDescription {
                reference_type_id: NodeId::new_numeric(0, 35),
                is_forward: true,
                node_id: ExpandedNodeId::new(NodeId::new_numeric(2, 7)),
                browse_name: QualifiedName::new(2, "Node"),
                display_name: LocalizedText::new("", "Node"),
                node_class: NodeClass::Variable,
                type_definition: ExpandedNodeId::new(NodeId::new_numeric(0, 63)),
            }]),
        }]),
        diagnostic_infos: Some(vec![DiagnosticInfo::new()]),
    };
    assert_eq!(response.object_id(), ObjectId::BrowseNextResponse_Encoding_DefaultBinary);
    round_trip(response);
}

#[test]
fn create_session_request() {
    let request = CreateSessionRequest {
        request_header: RequestHeader::new(&NodeId::null(), &DateTime::ymd(2020, 1, 1), 1),
        client_description: application(),
        server_uri: UAString::null(),
        endpoint_url: UAString::from_str("opc.tcp://localhost:4840/"),
        session_name: UAString::from_str("session"),
        client_nonce: ByteString::from_bytes(&[7; 32]),
        client_certificate: ByteString::null(),
        requested_session_timeout: 60000.0f64.to_bits(),
        max_response_message_size: 0,
    };
    assert_eq!(request.node_id(), NodeId::new_numeric(0, 461));
    let bytes = round_trip(request);
    // the timeout travels as the double that its bits are
    let n = bytes.len();
    assert_eq!(&bytes[n - 12..n - 4], &60000.0f64.to_le_bytes());
}

#[test]
fn descriptions() {
    round_trip(application());
    let bytes = round_trip(endpoint());
    assert_eq!(bytes[bytes.len() - 1], 3);
    round_trip(property("p", Variant::Array(vec![Variant::Int32(1), Variant::Int32(2)])));
    round_trip(meta_data());
    assert_eq!(round_trip(StructureType::Union), vec![2, 0, 0, 0]);
    assert_eq!(
        StructureType::decode(&mut ReadStream::new(&[3, 0, 0, 0]), &limits()),
        Err(StatusCode::BadDecodingError)
    );
    assert_eq!(
        round_trip(ConfigurationVersionDataType { major_version: 1, minor_version: 2 }),
        vec![1, 0, 0, 0, 2, 0, 0, 0]
    );
}

#[test]
fn pub_sub_settings() {
    round_trip(reader());
    round_trip(writer_group());
    let bytes = round_trip(reader_group());
    // name, enabled, security mode
    assert_eq!(&bytes[0..16], &[7, 0, 0, 0, b'r', b'e', b'a', b'd', b'e', b'r', b's', 0, 3, 0, 0, 0]);
    let connection = PubSubConnectionDataType {
        name: UAString::from_str("connection"),
        enabled: true,
        publisher_id: Variant::String(UAString::from_str("pub")),
        transport_profile_uri: UAString::from_str("urn:transport"),
        address: ExtensionObject::null(),
        connection_properties: None,
        transport_settings: ExtensionObject::null(),
        writer_groups: Some(vec![writer_group()]),
        reader_groups: Some(vec![reader_group()]),
    };
    assert_eq!(connection.object_id(), ObjectId::PubSubConnectionDataType_Encoding_DefaultBinary);
    assert_eq!(connection.node_id(), NodeId::new_numeric(0, 15694));
    round_trip(connection);
}

#[test]
fn a_limit_reaches_into_what_a_message_holds() {
    let mut stream = Vec::new();
    reader_group().encode(&mut stream).unwrap();
    let mut small = limits();
    small.max_array_length = 1;
    // the group holds two readers and two properties
    assert_eq!(
        ReaderGroupDataType::decode(&mut ReadStream::new(&stream), &small),
        Err(StatusCode::BadEncodingLimitsExceeded)
    );
    let mut small = limits();
    small.max_string_length = 3;
    assert_eq!(
        ReaderGroupDataType::decode(&mut ReadStream::new(&stream), &small),
        Err(StatusCode::BadEncodingLimitsExceeded)
    );
    let mut small = limits();
    small.max_byte_string_length = 2;
    assert_eq!(
        ReaderGroupDataType::decode(&mut ReadStream::new(&stream), &small),
        Err(StatusCode::BadEncodingLimitsExceeded)
    );
}

#[test]
fn attributes_mask() {
    assert_eq!(AttributesMask::ACCESS_LEVEL, 1);
    assert_eq!(AttributesMask::ARRAY_DIMENSIONS, 2);
    assert_eq!(AttributesMask::DISPLAY_NAME, 64);
    assert_eq!(AttributesMask::VALUE, 1 << 21);
    assert_eq!(AttributesMask::ALL, 0x3f9ffb);
    assert!(AttributesMask::empty().is_empty());
    let mask = AttributesMask::from_bits(AttributesMask::DISPLAY_NAME | AttributesMask::VALUE).unwrap();
    assert_eq!(mask.bits(), (1 << 6) | (1 << 21));
    assert!(mask.contains(AttributesMask::DISPLAY_NAME));
    assert!(mask.contains(AttributesMask::DISPLAY_NAME | AttributesMask::VALUE));
    assert!(!mask.contains(AttributesMask::DISPLAY_NAME | AttributesMask::DESCRIPTION));
    assert!(mask.contains(0));
    // bits without a meaning: 2, 13 and 14, and those above 21
    assert_eq!(AttributesMask::from_bits(1 << 2), None);
    assert_eq!(AttributesMask::from_bits(1 << 13), None);
    assert_eq!(AttributesMask::from_bits(1 << 22), None);
    assert_eq!(AttributesMask::from_bits(u32::MAX), None);
    assert_eq!(AttributesMask::from_bits(0), Some(AttributesMask::empty()));
    assert_eq!(AttributesMask::from_bits_truncate(u32::MAX).bits(), AttributesMask::ALL);
    assert_eq!(AttributesMask::from_bits_truncate((1 << 2) | 1).bits(), 1);
    let mut mask = AttributesMask::empty();
    mask.insert(AttributesMask::HISTORIZING | (1 << 2));
    assert_eq!(mask.bits(), AttributesMask::HISTORIZING);
    mask.insert(AttributesMask::SYMMETRIC);
    mask.remove(AttributesMask::HISTORIZING | AttributesMask::VALUE);
    assert_eq!(mask.bits(), AttributesMask::SYMMETRIC);
}

#[test]
fn write_mask() {
    assert_eq!(WriteMask::BROWSE_NAME, 4);
    assert_eq!(WriteMask::NODE_CLASS, 1 << 13);
    assert_eq!(WriteMask::NODE_ID, 1 << 14);
    assert_eq!(WriteMask::VALUE_FOR_VARIABLE_TYPE, 1 << 21);
    assert_eq!(WriteMask::ALL, 0x3fffff);
    assert_eq!(WriteMask::from_bits(0x3fffff).unwrap().bits(), 0x3fffff);
    assert_eq!(WriteMask::from_bits(0x400000), None);
    assert_eq!(WriteMask::from_bits_truncate(0xffff_ffff).bits(), 0x3fffff);
    let mut mask = WriteMask::from_bits_truncate(WriteMask::DESCRIPTION);
    assert!(mask.contains(WriteMask::DESCRIPTION));
    assert!(!mask.contains(WriteMask::DISPLAY_NAME));
    mask.insert(WriteMask::DISPLAY_NAME);
    assert!(mask.contains(WriteMask::DISPLAY_NAME | WriteMask::DESCRIPTION));
    mask.remove(WriteMask::DESCRIPTION);
    assert_eq!(mask.bits(), WriteMask::DISPLAY_NAME);
    assert!(!mask.is_empty());
}

#[test]
fn constants_and_profiles() {
    assert_eq!(DEFAULT_OPC_UA_SERVER_PORT, 4840);
    assert_eq!(MAX_CERTIFICATE_LENGTH, 32768);
    assert_eq!(SECURITY_POLICY_NONE_URI, "http://opcfoundation.org/UA/SecurityPolicy#None");
    assert_eq!(
        SECURITY_POLICY_BASIC_128_RSA_15_URI,
        "http://opcfoundation.org/UA/SecurityPolicy#Basic128Rsa15"
    );
    assert_eq!(SECURITY_POLICY_BASIC_256_URI, "http://opcfoundation.org/UA/SecurityPolicy#Basic256");
    assert_eq!(
        SECURITY_POLICY_BASIC_256_SHA_256_URI,
        "http://opcfoundation.org/UA/SecurityPolicy#Basic256Sha256"
    );
    assert_eq!(SECURITY_POLICY_NONE, "None");
    assert_eq!(SECURITY_POLICY_BASIC_128_RSA_15, "Basic128Rsa15");
    assert_eq!(SECURITY_POLICY_BASIC_256, "Basic256");
    assert_eq!(SECURITY_POLICY_BASIC_256_SHA_256, "Basic256Sha256");
    assert_eq!(
        TRANSPORT_PROFILE_URI_BINARY,
        "http://opcfoundation.org/UA-Profile/Transport/uatcp-uasc-uabinary"
    );
    assert_eq!(
        SECURITY_USER_TOKEN_POLICY_ANONYMOUS,
        "http://opcfoundation.org/UA-Profile/Security/UserToken/Anonymous"
    );
    assert_eq!(
        SECURITY_USER_TOKEN_POLICY_USERPASS,
        "http://opcfoundation.org/UA-Profile/ Security/UserToken-Server/UserNamePassword"
    );
}

#[test]
fn checked_date_constructor() {
    let t = DateTime::try_ymd_hms_nano(2024, 2, 29, 1, 2, 3, 4).unwrap();
    assert_eq!((t.year(), t.month(), t.day(), t.hour(), t.min(), t.sec(), t.nano_sec()), (2024, 2, 29, 1, 2, 3, 4));
    assert_eq!(DateTime::try_ymd_hms_nano(2023, 2, 29, 1, 2, 3, 4), None);
    assert_eq!(DateTime::try_ymd_hms_nano(2024, 2, 29, 24, 0, 0, 0), None);
    assert_eq!(DateTime::try_ymd_hms_nano(1601, 1, 1, 0, 0, 0, 0), Some(DateTime::epoch()));
}
