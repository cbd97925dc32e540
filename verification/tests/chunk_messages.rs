use opcua::chunk::{Chunk, ChunkMessageType, ChunkType, Chunker, SequenceHeader};
use opcua::chunk_messages::SymmetricSecurityHeader;
use opcua::date_time::DateTime;
use opcua::encoding::{BinaryEncoder, DecodingLimits, ReadStream};
use opcua::node_id::NodeId;
use opcua::service_types::browse_next_request::BrowseNextRequest;
use opcua::service_types::close_session_request::CloseSessionRequest;
use opcua::service_types::RequestHeader;
use opcua::status_codes::StatusCode;
use opcua::byte_string::ByteString;
use opcua::supported_message::SupportedMessage;

fn message(handle: u32) -> SupportedMessage {
    SupportedMessage::CloseSessionRequest(Box::new(CloseSessionRequest {
        request_header: RequestHeader::new(&NodeId::new_numeric(1, 1000), &DateTime::ymd(2020, 1, 1), handle),
        delete_subscriptions: true,
    }))
}

fn long_message() -> SupportedMessage {
    SupportedMessage::BrowseNextRequest(Box::new(BrowseNextRequest {
        request_header: RequestHeader::new(&NodeId::null(), &DateTime::epoch(), 9),
        release_continuation_points: false,
        continuation_points: Some(vec![ByteString::from_bytes(&[0x5a; 100])]),
    }))
}

fn refs(chunks: &Vec<Chunk>) -> Vec<&Chunk> {
    chunks.iter().collect()
}

#[test]
fn symmetric_security_header() {
    let header = SymmetricSecurityHeader { token_id: 0x01020304 };
    let mut stream = Vec::new();
    assert_eq!(header.encode(&mut stream), Ok(4));
    assert_eq!(stream, vec![4, 3, 2, 1]);
    assert_eq!(header.byte_len(), 4);
    assert_eq!(
        SymmetricSecurityHeader::decode(&mut ReadStream::new(&stream), &DecodingLimits::default()),
        Ok(header)
    );
}

#[test]
fn message_body_layout() {
    let chunker = Chunker::new();
    let sequence = SequenceHeader { sequence_number: 7, request_id: 8 };
    let body = chunker.encode_message_body(&message(5), 3, &sequence).unwrap();
    // token, sequence number, request id, node id of the encoding of the request
    assert_eq!(&body[0..16], &[3, 0, 0, 0, 7, 0, 0, 0, 8, 0, 0, 0, 1, 0, 0xd9, 0x01]);
    let mut rest = Vec::new();
    message(5).encode(&mut rest).unwrap();
    assert_eq!(&body[16..], &rest[..]);
    assert_eq!(chunker.decode_message_body(&body), Ok((sequence, message(5))));
}

#[test]
fn message_in_one_chunk() {
    let chunker = Chunker::new();
    let sequence = SequenceHeader { sequence_number: 1, request_id: 2 };
    let chunks = chunker.encode(&message(5), 11, 3, &sequence, 8192).unwrap();
    assert_eq!(chunks.len(), 1);
    assert_eq!(chunks[0].chunk_header.message_type, ChunkMessageType::Message);
    assert_eq!(chunks[0].chunk_header.is_final, ChunkType::Final);
    assert_eq!(chunks[0].chunk_header.secure_channel_id, 11);
    assert!(chunks[0].chunk_header.is_valid);
    assert_eq!(chunks[0].chunk_header.message_size as usize, 12 + chunks[0].chunk_body.len());
    assert_eq!(chunker.decode_message(&refs(&chunks)), Ok((sequence, message(5))));
    // through the wire
    let mut wire = Vec::new();
    chunks[0].encode(&mut wire).unwrap();
    let read = Chunk::decode(&mut ReadStream::new(&wire)).unwrap();
    assert_eq!(chunker.decode_message(&vec![&read]), Ok((sequence, message(5))));
}

#[test]
fn message_in_several_chunks() {
    let mut chunker = Chunker::new();
    chunker.max_chunk_count = 16;
    let sequence = SequenceHeader { sequence_number: 1, request_id: 2 };
    let body = chunker.encode_message_body(&long_message(), 3, &sequence).unwrap();
    assert_eq!(body.len(), 154);
    let chunks = chunker.encode(&long_message(), 11, 3, &sequence, 12 + 64).unwrap();
    assert_eq!(chunks.len(), 3);
    assert_eq!(chunks[0].chunk_body, &body[0..64]);
    assert_eq!(chunks[1].chunk_body, &body[64..128]);
    assert_eq!(chunks[2].chunk_body, &body[128..]);
    assert_eq!(chunks[0].chunk_header.is_final, ChunkType::Intermediate);
    assert_eq!(chunks[1].chunk_header.is_final, ChunkType::Intermediate);
    assert_eq!(chunks[2].chunk_header.is_final, ChunkType::Final);
    assert_eq!(chunks[0].chunk_header.message_size, 76);
    assert_eq!(chunks[2].chunk_header.message_size, 12 + 26);
    assert_eq!(chunker.reassemble(&refs(&chunks)), Ok(body));
    assert_eq!(chunker.decode_message(&refs(&chunks)), Ok((sequence, long_message())));
    // a chunk that is missing
    assert_eq!(
        chunker.decode_message(&vec![&chunks[0], &chunks[2]]).err(),
        Some(StatusCode::BadDecodingError)
    );
}

#[test]
fn split_sizes() {
    let mut chunker = Chunker::new();
    chunker.max_chunk_count = 4;
    let kind = ChunkMessageType::Message;
    // a body without bytes is one final chunk without a body
    let chunks = chunker.split(kind, 1, &[], 13).unwrap();
    assert_eq!(chunks.len(), 1);
    assert_eq!(chunks[0].chunk_body, Vec::<u8>::new());
    assert_eq!(chunks[0].chunk_header.is_final, ChunkType::Final);
    assert_eq!(chunks[0].chunk_header.message_size, 12);
    // a body that fills its chunks is not followed by an empty chunk
    let chunks = chunker.split(kind, 1, &[1, 2, 3, 4], 14).unwrap();
    assert_eq!(chunks.len(), 2);
    assert_eq!(chunks[1].chunk_body, vec![3, 4]);
    let chunks = chunker.split(kind, 1, &[1, 2, 3, 4], 13).unwrap();
    assert_eq!(chunks.len(), 4);
    assert_eq!(chunker.reassemble(&refs(&chunks)), Ok(vec![1, 2, 3, 4]));
    let chunks = chunker.split(ChunkMessageType::OpenSecureChannel, 9, &[1, 2, 3], 14).unwrap();
    assert_eq!(chunks.len(), 2);
    assert_eq!(chunks[0].chunk_header.message_type, ChunkMessageType::OpenSecureChannel);
    assert_eq!(chunks[1].chunk_header.secure_channel_id, 9);
}

#[test]
fn split_errors() {
    let mut chunker = Chunker::new();
    let kind = ChunkMessageType::Message;
    // no room for a body
    assert_eq!(chunker.split(kind, 1, &[1], 12), Err(StatusCode::BadEncodingLimitsExceeded));
    assert_eq!(chunker.split(kind, 1, &[], 0), Err(StatusCode::BadEncodingLimitsExceeded));
    // more chunks than the chunker takes
    assert_eq!(chunker.split(kind, 1, &[1, 2], 13), Err(StatusCode::BadTcpMessageTooLarge));
    chunker.max_chunk_count = 2;
    assert!(chunker.split(kind, 1, &[1, 2], 13).is_ok());
    assert_eq!(chunker.split(kind, 1, &[1, 2, 3], 13), Err(StatusCode::BadTcpMessageTooLarge));
    chunker.max_chunk_count = 0;
    assert_eq!(chunker.split(kind, 1, &[], 100), Err(StatusCode::BadTcpMessageTooLarge));
    let sequence = SequenceHeader { sequence_number: 1, request_id: 2 };
    let chunker = Chunker::new();
    assert_eq!(
        chunker.encode(&long_message(), 11, 3, &sequence, 12 + 64),
        Err(StatusCode::BadTcpMessageTooLarge)
    );
}

#[test]
fn decode_message_errors() {
    let chunker = Chunker::new();
    let sequence = SequenceHeader { sequence_number: 1, request_id: 2 };
    let mut chunks = chunker.encode(&message(5), 11, 3, &sequence, 8192).unwrap();
    // a node id that names no message
    chunks[0].chunk_body[14] = 0xff;
    assert_eq!(chunker.decode_message(&refs(&chunks)).err(), Some(StatusCode::BadServiceUnsupported));
    // a node id that names a data type that is no message
    let mut chunks = chunker.encode(&message(5), 11, 3, &sequence, 8192).unwrap();
    chunks[0].chunk_body[14] = 0xfc;
    chunks[0].chunk_body[15] = 0x39;
    assert_eq!(chunker.decode_message(&refs(&chunks)).err(), Some(StatusCode::BadServiceUnsupported));
    // chunks of another kind
    let mut chunks = chunker.encode(&message(5), 11, 3, &sequence, 8192).unwrap();
    chunks[0].chunk_header.message_type = ChunkMessageType::CloseSecureChannel;
    assert_eq!(chunker.decode_message(&refs(&chunks)).err(), Some(StatusCode::BadUnexpectedError));
    // a body that ends too early
    let mut chunks = chunker.encode(&message(5), 11, 3, &sequence, 8192).unwrap();
    chunks[0].chunk_body.truncate(20);
    chunks[0].chunk_header.message_size = 32;
    assert_eq!(chunker.decode_message(&refs(&chunks)).err(), Some(StatusCode::BadDecodingError));
    assert_eq!(chunker.decode_message(&vec![]).err(), Some(StatusCode::BadUnexpectedError));
    assert_eq!(chunker.decode_message_body(&[1, 2, 3]).err(), Some(StatusCode::BadDecodingError));
}
