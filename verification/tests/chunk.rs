use opcua::byte_string::ByteString;
use opcua::chunk::{Chunk, ChunkHeader, ChunkMessageType, ChunkType, Chunker};
use opcua::date_time::DateTime;
use opcua::encoding::{BinaryEncoder, DecodingLimits, ReadStream};
use opcua::extension_object::ExtensionObject;
use opcua::node_id::NodeId;
use opcua::service_types::open_secure_channel_request::OpenSecureChannelRequest;
use opcua::service_types::{MessageSecurityMode, RequestHeader, SecurityTokenRequestType};
use opcua::status_codes::StatusCode;
use opcua::string::UAString;

fn get_sample_data_security_none() -> Vec<u8> {
    return vec![
        0x2f, 0x00, 0x00, 0x00, 0x68, 0x74, 0x74, 0x70, 0x3a, 0x2f, 0x2f, 0x6f, 0x70, 0x63, 0x66,
        0x6f, 0x75, 0x6e, 0x64, 0x61, 0x74, 0x69, 0x6f, 0x6e, 0x2e, 0x6f, 0x72, 0x67, 0x2f, 0x55,
        0x41, 0x2f, 0x53, 0x65, 0x63, 0x75, 0x72, 0x69, 0x74, 0x79, 0x50, 0x6f, 0x6c, 0x69, 0x63,
        0x79, 0x23, 0x4e, 0x6f, 0x6e, 0x65, 0xff, 0xff, 0xff, 0xff, 0xff, 0xff, 0xff, 0xff, 0x01,
        0x00, 0x00, 0x00, 0x01, 0x00, 0x00, 0x00, 0x01, 0x00, 0xbe, 0x01, 0x00, 0x00, 0x20, 0x9b,
        0xa2, 0xfa, 0xcc, 0x65, 0xd2, 0x01, 0x01, 0x00, 0x00, 0x00, 0x00, 0x00, 0x00, 0x00, 0xff,
        0xff, 0xff, 0xff, 0x00, 0x00, 0x00, 0x00, 0x00, 0x00, 0x00, 0x00, 0x00, 0x00, 0x00, 0x00,
        0x00, 0x00, 0x00, 0x01, 0x00, 0x00, 0x00, 0xff, 0xff, 0xff, 0xff, 0x40, 0x9c, 0x00, 0x00,
    ];
}

fn get_sample_chunk() -> Chunk {
    let sample_data = get_sample_data_security_none();
    let sample_data_len = sample_data.len() as u32;
    Chunk {
        chunk_header: ChunkHeader {
            message_type: ChunkMessageType::OpenSecureChannel,
            is_final: ChunkType::Final,
            message_size: 12 + sample_data_len,
            secure_channel_id: 1,
            is_valid: true,
        },
        chunk_body: sample_data,
    }
}

fn serialize_test_and_return(value: OpenSecureChannelRequest) -> OpenSecureChannelRequest {
    let mut stream = Vec::new();
    let byte_len = value.byte_len();
    let result = value.encode(&mut stream);
    assert_eq!(result, Ok(byte_len));
    assert_eq!(stream.len(), byte_len);
    let mut input = ReadStream::new(&stream);
    let new_value = OpenSecureChannelRequest::decode(&mut input, &DecodingLimits::default()).unwrap();
    assert_eq!(input.remaining(), 0);
    new_value
}

#[test]
fn test_read_open_secure_channel() {
    let chunker = Chunker::new();

    let chunk = get_sample_chunk();
    let chunks = vec![&chunk];

    let open_secure_channel_request: OpenSecureChannelRequest =
        chunker.decode_open_secure_channel_request(&chunks).unwrap();
    {
        let ref request_header = open_secure_channel_request.request_header;
        assert_eq!(request_header.timestamp.ticks(), 131279270199860000);
        assert_eq!(request_header.request_handle, 1);
        assert_eq!(request_header.return_diagnostics, 0);
        assert_eq!(request_header.audit_entry_id.is_null(), true);
        assert_eq!(request_header.timeout_hint, 0);
    }
    assert_eq!(open_secure_channel_request.request_header.authentication_token, NodeId::null());
    assert!(open_secure_channel_request.request_header.additional_header.is_null());
    assert_eq!(open_secure_channel_request.client_protocol_version, 0);
    assert_eq!(open_secure_channel_request.request_type, SecurityTokenRequestType::Issue);
    assert_eq!(open_secure_channel_request.security_mode, MessageSecurityMode::Unsecured);
    assert!(open_secure_channel_request.client_nonce.is_null());
    assert_eq!(open_secure_channel_request.requested_lifetime, 40000);
}

// Encode open secure channel back to itself and compare
#[test]
fn chunk_test_open_secure_channel() {
    let open_secure_channel_request = OpenSecureChannelRequest {
        request_header: RequestHeader {
            authentication_token: NodeId::new_numeric(0, 99),
            timestamp: DateTime::now(),
            request_handle: 1,
            return_diagnostics: 0,
            audit_entry_id: UAString::null(),
            timeout_hint: 123456,
            additional_header: ExtensionObject::null(),
        },
        client_protocol_version: 77,
        request_type: SecurityTokenRequestType::Renew,
        security_mode: MessageSecurityMode::SignAndEncrypt,
        client_nonce: ByteString::null(),
        requested_lifetime: 4664,
    };
    let new_open_secure_channel_request =
        serialize_test_and_return(open_secure_channel_request.clone());
    assert_eq!(open_secure_channel_request, new_open_secure_channel_request);
}

#[test]
fn chunk_round_trip() {
    let chunk = get_sample_chunk();
    let mut stream = Vec::new();
    let n = chunk.encode(&mut stream).unwrap();
    assert_eq!(n, 12 + chunk.chunk_body.len());
    assert_eq!(&stream[0..4], b"OPNF");
    assert_eq!(&stream[4..8], &[(12 + 120) as u8, 0, 0, 0]);
    assert_eq!(&stream[8..12], &[1, 0, 0, 0]);
    stream.push(0xaa);
    let mut input = ReadStream::new(&stream);
    assert_eq!(Chunk::decode(&mut input), Ok(chunk));
    assert_eq!(input.remaining(), 1);
}

#[test]
fn chunk_header_kinds_and_places() {
    let limits = DecodingLimits::default();
    for (tag, message_type) in [
        (b"MSG", ChunkMessageType::Message),
        (b"OPN", ChunkMessageType::OpenSecureChannel),
        (b"CLO", ChunkMessageType::CloseSecureChannel),
    ] {
        for (place, is_final) in
            [(b'C', ChunkType::Intermediate), (b'F', ChunkType::Final), (b'A', ChunkType::FinalError)]
        {
            let mut bytes = tag.to_vec();
            bytes.push(place);
            bytes.extend_from_slice(&[0x10, 0, 0, 0, 0x07, 0, 0, 0]);
            let mut input = ReadStream::new(&bytes);
            let header = ChunkHeader::decode(&mut input, &limits).unwrap();
            assert_eq!(
                header,
                ChunkHeader {
                    message_type,
                    is_final,
                    message_size: 16,
                    secure_channel_id: 7,
                    is_valid: true
                }
            );
            let mut out = Vec::new();
            assert_eq!(header.encode(&mut out), Ok(12));
            assert_eq!(out, bytes);
            assert_eq!(header.byte_len(), 12);
        }
    }
}

#[test]
fn chunk_header_that_names_nothing_is_not_valid() {
    let limits = DecodingLimits::default();
    let bytes = b"XYZF\x0c\x00\x00\x00\x01\x00\x00\x00".to_vec();
    let mut input = ReadStream::new(&bytes);
    let header = ChunkHeader::decode(&mut input, &limits).unwrap();
    assert!(!header.is_valid);
    assert_eq!(header.message_size, 12);
    let bytes = b"MSGX\x0c\x00\x00\x00\x01\x00\x00\x00".to_vec();
    let mut input = ReadStream::new(&bytes);
    assert!(!ChunkHeader::decode(&mut input, &limits).unwrap().is_valid);
    // and it has no wire form
    let mut out = vec![9u8];
    assert_eq!(header.encode(&mut out), Err(StatusCode::BadEncodingLimitsExceeded));
    assert_eq!(out, vec![9u8]);
}

#[test]
fn chunk_decode_errors() {
    // too short for a header
    let bytes = b"MSGF\x0c\x00\x00".to_vec();
    let mut input = ReadStream::new(&bytes);
    assert_eq!(Chunk::decode(&mut input), Err(StatusCode::BadDecodingError));
    // a kind that is not known
    let bytes = b"HELF\x0c\x00\x00\x00\x01\x00\x00\x00".to_vec();
    let mut input = ReadStream::new(&bytes);
    assert_eq!(Chunk::decode(&mut input), Err(StatusCode::BadTcpMessageTypeInvalid));
    // declared size smaller than the header
    let bytes = b"MSGF\x0b\x00\x00\x00\x01\x00\x00\x00".to_vec();
    let mut input = ReadStream::new(&bytes);
    assert_eq!(Chunk::decode(&mut input), Err(StatusCode::BadDecodingError));
    // declared size larger than what is there
    let bytes = b"MSGF\x0e\x00\x00\x00\x01\x00\x00\x00\x55".to_vec();
    let mut input = ReadStream::new(&bytes);
    assert_eq!(Chunk::decode(&mut input), Err(StatusCode::BadDecodingError));
    // an empty body
    let bytes = b"MSGF\x0c\x00\x00\x00\x01\x00\x00\x00".to_vec();
    let mut input = ReadStream::new(&bytes);
    assert_eq!(Chunk::decode(&mut input).unwrap().chunk_body, Vec::<u8>::new());
}

#[test]
fn chunk_that_is_not_consistent_is_not_encoded() {
    let mut chunk = get_sample_chunk();
    chunk.chunk_header.message_size += 1;
    let mut stream = vec![1u8, 2];
    assert_eq!(chunk.encode(&mut stream), Err(StatusCode::BadEncodingError));
    assert_eq!(stream, vec![1u8, 2]);
}

fn chunk_of(
    message_type: ChunkMessageType,
    is_final: ChunkType,
    secure_channel_id: u32,
    body: &[u8],
) -> Chunk {
    Chunk {
        chunk_header: ChunkHeader {
            message_type,
            is_final,
            message_size: 12 + body.len() as u32,
            secure_channel_id,
            is_valid: true,
        },
        chunk_body: body.to_vec(),
    }
}

#[test]
fn reassemble_one_chunk() {
    let chunker = Chunker::new();
    let chunk = chunk_of(ChunkMessageType::Message, ChunkType::Final, 3, &[1, 2, 3]);
    assert_eq!(chunker.reassemble(&vec![&chunk]), Ok(vec![1, 2, 3]));
}

#[test]
fn reassemble_several_chunks() {
    let mut chunker = Chunker::new();
    chunker.max_chunk_count = 3;
    let a = chunk_of(ChunkMessageType::Message, ChunkType::Intermediate, 3, &[1, 2]);
    let b = chunk_of(ChunkMessageType::Message, ChunkType::Intermediate, 3, &[]);
    let c = chunk_of(ChunkMessageType::Message, ChunkType::Final, 3, &[3, 4, 5]);
    assert_eq!(chunker.reassemble(&vec![&a, &b, &c]), Ok(vec![1, 2, 3, 4, 5]));
}

#[test]
fn reassemble_errors() {
    let mut chunker = Chunker::new();
    assert_eq!(chunker.reassemble(&vec![]), Err(StatusCode::BadUnexpectedError));
    let a = chunk_of(ChunkMessageType::Message, ChunkType::Intermediate, 3, &[1, 2]);
    let c = chunk_of(ChunkMessageType::Message, ChunkType::Final, 3, &[3, 4, 5]);
    // more chunks than the chunker takes
    assert_eq!(chunker.reassemble(&vec![&a, &c]), Err(StatusCode::BadTcpMessageTooLarge));
    chunker.max_chunk_count = 4;
    // the last chunk is not final
    assert_eq!(chunker.reassemble(&vec![&a, &a]), Err(StatusCode::BadDecodingError));
    // a final chunk in the middle
    assert_eq!(chunker.reassemble(&vec![&c, &c]), Err(StatusCode::BadDecodingError));
    // a chunk of a message that was given up
    let gone = chunk_of(ChunkMessageType::Message, ChunkType::FinalError, 3, &[]);
    assert_eq!(chunker.reassemble(&vec![&a, &gone]), Err(StatusCode::BadDecodingError));
    // another secure channel
    let other = chunk_of(ChunkMessageType::Message, ChunkType::Final, 4, &[3]);
    assert_eq!(chunker.reassemble(&vec![&a, &other]), Err(StatusCode::BadSecureChannelIdInvalid));
    // another kind of message
    let open = chunk_of(ChunkMessageType::OpenSecureChannel, ChunkType::Final, 3, &[3]);
    assert_eq!(chunker.reassemble(&vec![&a, &open]), Err(StatusCode::BadTcpMessageTypeInvalid));
    // a declared size that is not the chunk's
    let mut wrong = chunk_of(ChunkMessageType::Message, ChunkType::Final, 3, &[3]);
    wrong.chunk_header.message_size = 99;
    assert_eq!(chunker.reassemble(&vec![&wrong]), Err(StatusCode::BadDecodingError));
    // a header that is not valid
    let mut invalid = chunk_of(ChunkMessageType::Message, ChunkType::Final, 3, &[3]);
    invalid.chunk_header.is_valid = false;
    assert_eq!(chunker.reassemble(&vec![&invalid]), Err(StatusCode::BadTcpMessageTypeInvalid));
    // the first fault decides
    assert_eq!(
        chunker.reassemble(&vec![&a, &other, &wrong]),
        Err(StatusCode::BadSecureChannelIdInvalid)
    );
}

#[test]
fn open_secure_channel_request_errors() {
    let chunker = Chunker::new();
    // chunks of another kind of message
    let mut chunk = get_sample_chunk();
    chunk.chunk_header.message_type = ChunkMessageType::Message;
    assert_eq!(
        chunker.decode_open_secure_channel_request(&vec![&chunk]).err(),
        Some(StatusCode::BadUnexpectedError)
    );
    // another message than a request to open a secure channel
    let mut chunk = get_sample_chunk();
    chunk.chunk_body[69] = 0xc1;
    assert_eq!(
        chunker.decode_open_secure_channel_request(&vec![&chunk]).err(),
        Some(StatusCode::BadUnexpectedError)
    );
    // a body that ends too early
    let mut chunk = get_sample_chunk();
    chunk.chunk_body.truncate(100);
    chunk.chunk_header.message_size = 112;
    assert_eq!(
        chunker.decode_open_secure_channel_request(&vec![&chunk]).err(),
        Some(StatusCode::BadDecodingError)
    );
    // a security mode that does not exist
    let mut chunk = get_sample_chunk();
    chunk.chunk_body[107] = 9;
    assert_eq!(
        chunker.decode_open_secure_channel_request(&vec![&chunk]).err(),
        Some(StatusCode::BadDecodingError)
    );
    assert_eq!(
        chunker.decode_open_secure_channel_body(&get_sample_data_security_none()).map(|r| r.requested_lifetime),
        Ok(40000)
    );
}
