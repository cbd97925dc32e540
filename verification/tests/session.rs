use opcua::chunk::Chunk;
use opcua::date_time::DateTime;
use opcua::encoding::{BinaryEncoder, DecodingLimits, ReadStream};
use opcua::handshake::{
    AcknowledgeMessage, ErrorMessage, HelloMessage, MessageHeader, MessageType,
};
use opcua::session::{
    SessionConfig, SessionState, SessionStep, TcpSession, MAX_CHUNK_COUNT, MAX_MESSAGE_SIZE,
    RECEIVE_BUFFER_SIZE, SEND_BUFFER_SIZE,
};
use opcua::status_codes::StatusCode;
use opcua::string::UAString;

fn hello(url: &str) -> HelloMessage {
    HelloMessage {
        protocol_version: 0,
        receive_buffer_size: 8192,
        send_buffer_size: 8192,
        max_message_size: 0,
        max_chunk_count: 0,
        endpoint_url: UAString::from_str(url),
    }
}

fn hello_frame(hello: &HelloMessage) -> Vec<u8> {
    let mut frame = Vec::new();
    let header = MessageHeader {
        message_type: MessageType::Hello,
        message_size: 8 + hello.byte_len() as u32,
    };
    header.encode(&mut frame).unwrap();
    hello.encode(&mut frame).unwrap();
    frame
}

fn acknowledge_frame() -> Vec<u8> {
    vec![
        b'A', b'C', b'K', b'F', 28, 0, 0, 0, 0, 0, 0, 0, 0x00, 0x80, 0, 0, 0x00, 0x80, 0, 0, 0x00,
        0x40, 0, 0, 1, 0, 0, 0,
    ]
}

fn error_frame(status: StatusCode) -> Vec<u8> {
    let mut frame = vec![b'E', b'R', b'R', b'F', 16, 0, 0, 0];
    frame.extend_from_slice(&status.bits().to_le_bytes());
    frame.extend_from_slice(&[0xff, 0xff, 0xff, 0xff]);
    frame
}

fn waiting(hello_timeout: u32) -> TcpSession {
    let mut session = TcpSession::new(SessionConfig { hello_timeout });
    session.start();
    session
}

fn sample_open_secure_channel_chunk() -> Vec<u8> {
    let body: Vec<u8> = vec![
        0x2f, 0x00, 0x00, 0x00, 0x68, 0x74, 0x74, 0x70, 0x3a, 0x2f, 0x2f, 0x6f, 0x70, 0x63, 0x66,
        0x6f, 0x75, 0x6e, 0x64, 0x61, 0x74, 0x69, 0x6f, 0x6e, 0x2e, 0x6f, 0x72, 0x67, 0x2f, 0x55,
        0x41, 0x2f, 0x53, 0x65, 0x63, 0x75, 0x72, 0x69, 0x74, 0x79, 0x50, 0x6f, 0x6c, 0x69, 0x63,
        0x79, 0x23, 0x4e, 0x6f, 0x6e, 0x65, 0xff, 0xff, 0xff, 0xff, 0xff, 0xff, 0xff, 0xff, 0x01,
        0x00, 0x00, 0x00, 0x01, 0x00, 0x00, 0x00, 0x01, 0x00, 0xbe, 0x01, 0x00, 0x00, 0x20, 0x9b,
        0xa2, 0xfa, 0xcc, 0x65, 0xd2, 0x01, 0x01, 0x00, 0x00, 0x00, 0x00, 0x00, 0x00, 0x00, 0xff,
        0xff, 0xff, 0xff, 0x00, 0x00, 0x00, 0x00, 0x00, 0x00, 0x00, 0x00, 0x00, 0x00, 0x00, 0x00,
        0x00, 0x00, 0x00, 0x01, 0x00, 0x00, 0x00, 0xff, 0xff, 0xff, 0xff, 0x40, 0x9c, 0x00, 0x00,
    ];
    let mut chunk = b"OPNF".to_vec();
    chunk.extend_from_slice(&(12 + body.len() as u32).to_le_bytes());
    chunk.extend_from_slice(&[5, 0, 0, 0]);
    chunk.extend_from_slice(&body);
    chunk
}

#[test]
fn new_session() {
    let session = TcpSession::new(SessionConfig { hello_timeout: 100 });
    assert_eq!(session.session_state, SessionState::New);
    assert_eq!(session.session_config.hello_timeout, 100);
    assert_eq!(session.client_protocol_version, 0);
    assert!(session.subscriptions.is_empty());
    assert_eq!(session.chunker.max_chunk_count, 1);
}

#[test]
fn start_moves_a_new_session_only() {
    let mut session = TcpSession::new(SessionConfig { hello_timeout: 100 });
    session.start();
    assert_eq!(session.session_state, SessionState::WaitingHello);
    session.start();
    assert_eq!(session.session_state, SessionState::WaitingHello);
    session.session_state = SessionState::Finished;
    session.start();
    assert_eq!(session.session_state, SessionState::Finished);
}

#[test]
fn acknowledge_carries_the_servers_limits() {
    assert_eq!(RECEIVE_BUFFER_SIZE, 32768);
    assert_eq!(SEND_BUFFER_SIZE, 32768);
    assert_eq!(MAX_MESSAGE_SIZE, 16384);
    assert_eq!(MAX_CHUNK_COUNT, 1);
    let frame = acknowledge_frame();
    let limits = DecodingLimits::default();
    let mut input = ReadStream::new(&frame);
    let header = MessageHeader::decode(&mut input, &limits).unwrap();
    assert!(header.is_acknowledge());
    assert_eq!(header.message_size, 28);
    assert_eq!(
        AcknowledgeMessage::decode(&mut input, &limits),
        Ok(AcknowledgeMessage {
            protocol_version: 0,
            receive_buffer_size: 32768,
            send_buffer_size: 32768,
            max_message_size: 16384,
            max_chunk_count: 1,
        })
    );
}

// With a timeout of 100 ms, a session that has had no HELLO within 100 ms ends with a timeout.
#[test]
fn hello_timeout_ends_the_session() {
    let mut session = waiting(100);
    let mut out = Vec::new();
    assert_eq!(session.poll(50, &[], &mut out), SessionStep::Continue);
    assert_eq!(session.poll(100, &[], &mut out), SessionStep::Continue);
    assert_eq!(session.session_state, SessionState::WaitingHello);
    assert!(out.is_empty());
    assert_eq!(session.poll(101, &[], &mut out), SessionStep::Terminate(StatusCode::BadTimeout));
    assert_eq!(session.session_state, SessionState::Finished);
    assert_eq!(out, error_frame(StatusCode::BadTimeout));
}

#[test]
fn hello_that_comes_too_late_is_not_read() {
    let mut session = waiting(100);
    let mut out = Vec::new();
    let frame = hello_frame(&hello("opc.tcp://localhost:4840/"));
    assert_eq!(session.poll(101, &frame, &mut out), SessionStep::Terminate(StatusCode::BadTimeout));
    assert_eq!(session.session_state, SessionState::Finished);
    assert_eq!(out, error_frame(StatusCode::BadTimeout));
}

// A HELLO at 50 ms moves the session on and is answered with the ACKNOWLEDGE.
#[test]
fn hello_in_time_is_acknowledged() {
    let mut session = waiting(100);
    let mut out = Vec::new();
    let mut h = hello("opc.tcp://localhost:4840/");
    h.protocol_version = 0;
    let frame = hello_frame(&h);
    assert_eq!(session.poll(50, &frame, &mut out), SessionStep::Continue);
    assert_eq!(session.session_state, SessionState::ProcessMessages);
    assert_eq!(session.client_protocol_version, 0);
    assert_eq!(out, acknowledge_frame());
    // once the handshake is done the timeout no longer counts
    assert_eq!(session.poll(1_000_000, &[], &mut out), SessionStep::Continue);
    assert_eq!(session.session_state, SessionState::ProcessMessages);
}

#[test]
fn hello_at_the_timeout_is_in_time() {
    let mut session = waiting(100);
    let mut out = vec![0x77];
    let frame = hello_frame(&hello("opc.tcp://h"));
    assert_eq!(session.poll(100, &frame, &mut out), SessionStep::Continue);
    assert_eq!(session.session_state, SessionState::ProcessMessages);
    let mut expected = vec![0x77];
    expected.extend_from_slice(&acknowledge_frame());
    assert_eq!(out, expected);
}

fn rejected(frame: &[u8]) -> (StatusCode, Vec<u8>) {
    let mut session = waiting(100);
    let mut out = Vec::new();
    let step = session.poll(1, frame, &mut out);
    assert_eq!(session.session_state, SessionState::Finished);
    assert_eq!(session.client_protocol_version, 0);
    match step {
        SessionStep::Terminate(status) => (status, out),
        SessionStep::Continue => panic!("the session goes on"),
    }
}

#[test]
fn hello_with_a_newer_protocol_version_is_refused() {
    let mut h = hello("opc.tcp://localhost:4840/");
    h.protocol_version = 1;
    let (status, out) = rejected(&hello_frame(&h));
    assert_eq!(status, StatusCode::BadProtocolVersionUnsupported);
    assert_eq!(out, error_frame(StatusCode::BadProtocolVersionUnsupported));
}

#[test]
fn hello_with_a_bad_endpoint_url_is_refused() {
    for h in [
        hello("http://localhost/"),
        hello(""),
        hello("opc.tcp:/"),
        hello(&format!("opc.tcp://{}", "x".repeat(4087))),
        HelloMessage { endpoint_url: UAString::null(), ..hello("") },
    ] {
        let (status, out) = rejected(&hello_frame(&h));
        assert_eq!(status, StatusCode::BadTcpEndpointUrlInvalid);
        assert_eq!(out, error_frame(StatusCode::BadTcpEndpointUrlInvalid));
    }
    // a URL of 4096 bytes is as long as one may be
    let mut session = waiting(100);
    let mut out = Vec::new();
    let frame = hello_frame(&hello(&format!("opc.tcp://{}", "x".repeat(4086))));
    assert_eq!(session.poll(1, &frame, &mut out), SessionStep::Continue);
}

#[test]
fn hello_with_small_buffers_is_refused() {
    let mut h = hello("opc.tcp://localhost:4840/");
    h.receive_buffer_size = 8191;
    assert_eq!(rejected(&hello_frame(&h)).0, StatusCode::BadCommunicationError);
    let mut h = hello("opc.tcp://localhost:4840/");
    h.send_buffer_size = 0;
    assert_eq!(rejected(&hello_frame(&h)).0, StatusCode::BadCommunicationError);
    // the URL is looked at first, the version last
    let mut h = hello("nonsense");
    h.send_buffer_size = 0;
    h.protocol_version = 9;
    assert_eq!(rejected(&hello_frame(&h)).0, StatusCode::BadTcpEndpointUrlInvalid);
    let mut h = hello("opc.tcp://a");
    h.send_buffer_size = 0;
    h.protocol_version = 9;
    assert_eq!(rejected(&hello_frame(&h)).0, StatusCode::BadCommunicationError);
}

#[test]
fn another_frame_than_hello_is_a_communication_error() {
    let (status, out) = rejected(&acknowledge_frame());
    assert_eq!(status, StatusCode::BadCommunicationError);
    assert_eq!(out, error_frame(StatusCode::BadCommunicationError));
    assert_eq!(rejected(&error_frame(StatusCode::BadTimeout)).0, StatusCode::BadCommunicationError);
    assert_eq!(rejected(b"XXXXXXXXXXXXXXXX").0, StatusCode::BadCommunicationError);
    assert_eq!(rejected(&sample_open_secure_channel_chunk()).0, StatusCode::BadCommunicationError);
    // a HELLO that ends too early
    let frame = hello_frame(&hello("opc.tcp://localhost:4840/"));
    assert_eq!(rejected(&frame[0..frame.len() - 1]).0, StatusCode::BadCommunicationError);
    assert_eq!(rejected(&frame[0..8]).0, StatusCode::BadCommunicationError);
}

#[test]
fn fewer_bytes_than_a_header_end_the_session_without_a_word() {
    for n in 1..8 {
        let mut session = waiting(100);
        let mut out = Vec::new();
        let frame = hello_frame(&hello("opc.tcp://localhost:4840/"));
        assert_eq!(session.poll(1, &frame[0..n], &mut out), SessionStep::Terminate(StatusCode::Good));
        assert_eq!(session.session_state, SessionState::Finished);
        assert!(out.is_empty());
    }
}

#[test]
fn nothing_read_is_nothing_done() {
    for state in [
        SessionState::New,
        SessionState::WaitingHello,
        SessionState::ProcessMessages,
        SessionState::Finished,
    ] {
        let mut session = TcpSession::new(SessionConfig { hello_timeout: 100 });
        session.session_state = state;
        let mut out = Vec::new();
        assert_eq!(session.poll(1, &[], &mut out), SessionStep::Continue);
        assert_eq!(session.session_state, state);
        assert!(out.is_empty());
    }
}

#[test]
fn a_frame_for_a_session_that_does_not_read_is_unexpected() {
    for state in [SessionState::New, SessionState::Finished] {
        let mut session = TcpSession::new(SessionConfig { hello_timeout: 100 });
        session.session_state = state;
        let mut out = Vec::new();
        let frame = hello_frame(&hello("opc.tcp://localhost:4840/"));
        assert_eq!(
            session.poll(1_000, &frame, &mut out),
            SessionStep::Terminate(StatusCode::BadUnexpectedError)
        );
        assert_eq!(session.session_state, SessionState::Finished);
        assert_eq!(out, error_frame(StatusCode::BadUnexpectedError));
    }
}

fn processing() -> TcpSession {
    let mut session = waiting(100);
    let mut out = Vec::new();
    let frame = hello_frame(&hello("opc.tcp://localhost:4840/"));
    assert_eq!(session.poll(1, &frame, &mut out), SessionStep::Continue);
    session
}

#[test]
fn open_secure_channel_is_processed() {
    let mut session = processing();
    let mut out = Vec::new();
    assert_eq!(session.poll(200, &sample_open_secure_channel_chunk(), &mut out), SessionStep::Continue);
    assert_eq!(session.session_state, SessionState::ProcessMessages);
    assert!(out.is_empty());
}

#[test]
fn other_messages_are_not_expected() {
    for tag in [b"MSGF", b"CLOF"] {
        let mut session = processing();
        let mut out = Vec::new();
        let mut chunk = tag.to_vec();
        chunk.extend_from_slice(&[13, 0, 0, 0, 1, 0, 0, 0, 0x55]);
        assert_eq!(
            session.poll(200, &chunk, &mut out),
            SessionStep::Terminate(StatusCode::BadUnexpectedError)
        );
        assert_eq!(session.session_state, SessionState::Finished);
        assert_eq!(out, error_frame(StatusCode::BadUnexpectedError));
    }
}

#[test]
fn malformed_chunks_end_the_session() {
    let mut session = processing();
    let mut out = Vec::new();
    let frame = hello_frame(&hello("opc.tcp://localhost:4840/"));
    assert_eq!(
        session.poll(200, &frame, &mut out),
        SessionStep::Terminate(StatusCode::BadTcpMessageTypeInvalid)
    );
    assert_eq!(out, error_frame(StatusCode::BadTcpMessageTypeInvalid));

    let mut session = processing();
    let mut out = Vec::new();
    let chunk = sample_open_secure_channel_chunk();
    assert_eq!(
        session.poll(200, &chunk[0..chunk.len() - 1], &mut out),
        SessionStep::Terminate(StatusCode::BadDecodingError)
    );
    assert_eq!(session.session_state, SessionState::Finished);
}

#[test]
fn process_hello_leaves_the_session_alone_on_failure() {
    let mut session = waiting(100);
    let mut out = vec![1u8, 2];
    let frame = acknowledge_frame();
    let mut input = ReadStream::new(&frame);
    assert_eq!(session.process_hello(&mut input, &mut out), Err(StatusCode::BadCommunicationError));
    assert_eq!(session.session_state, SessionState::WaitingHello);
    assert_eq!(out, vec![1u8, 2]);
    let mut h = hello("opc.tcp://localhost:4840/");
    h.max_message_size = 1;
    let frame = hello_frame(&h);
    let mut input = ReadStream::new(&frame);
    assert_eq!(session.process_hello(&mut input, &mut out), Ok(()));
    assert_eq!(session.session_state, SessionState::ProcessMessages);
    assert_eq!(&out[0..2], &[1u8, 2]);
    assert_eq!(&out[2..], &acknowledge_frame()[..]);
}

#[test]
fn response_to_open_secure_channel() {
    let session = processing();
    let bytes = sample_open_secure_channel_chunk();
    let chunk = Chunk::decode(&mut ReadStream::new(&bytes)).unwrap();
    let response = session.process_open_secure_channel(&chunk).unwrap();
    assert_eq!(response.response_header.request_handle, 1);
    assert_eq!(response.response_header.service_result, StatusCode::Good);
    assert_eq!(response.security_token.created_at, response.response_header.timestamp);
    assert_eq!(response.security_token.channel_id, 0);
    assert_eq!(response.security_token.token_id, 0);
    assert_eq!(response.security_token.revised_lifetime, 0);
    assert_eq!(response.server_protocol_version, 0);
    assert!(response.server_nonce.is_null());
    assert!(response.response_header.timestamp.year() > 2000);

    let request = session.chunker.decode_open_secure_channel_request(&vec![&chunk]).unwrap();
    let now = DateTime::ymd(2020, 5, 17);
    let response = TcpSession::open_secure_channel_response(&request, &now);
    assert_eq!(response.response_header.timestamp, now);
    assert_eq!(response.security_token.created_at, now);
    assert_eq!(response.response_header.request_handle, 1);
    assert!(response.response_header.string_table.is_none());
}

#[test]
fn terminate_with_a_good_status_says_nothing() {
    let mut session = processing();
    let mut out = vec![3u8];
    assert_eq!(session.terminate(StatusCode::Good, &mut out), SessionStep::Terminate(StatusCode::Good));
    assert_eq!(session.session_state, SessionState::Finished);
    assert_eq!(out, vec![3u8]);
    assert_eq!(
        session.terminate(StatusCode::BadShutdown, &mut out),
        SessionStep::Terminate(StatusCode::BadShutdown)
    );
    let mut expected = vec![3u8];
    expected.extend_from_slice(&error_frame(StatusCode::BadShutdown));
    assert_eq!(out, expected);
}

#[test]
fn handshake_frames() {
    let limits = DecodingLimits::default();
    let h = hello("opc.tcp://a");
    let frame = hello_frame(&h);
    assert_eq!(&frame[0..8], &[b'H', b'E', b'L', b'F', 43, 0, 0, 0]);
    assert_eq!(frame.len(), 43);
    let mut input = ReadStream::new(&frame);
    let header = MessageHeader::decode(&mut input, &limits).unwrap();
    assert!(header.is_hello());
    assert!(!header.is_acknowledge());
    assert!(!header.is_error());
    assert_eq!(HelloMessage::decode(&mut input, &limits), Ok(h));

    assert_eq!(MessageHeader::message_type(b"HELF"), MessageType::Hello);
    assert_eq!(MessageHeader::message_type(b"ACKF"), MessageType::Acknowledge);
    assert_eq!(MessageHeader::message_type(b"ERRF"), MessageType::Error);
    assert_eq!(MessageHeader::message_type(b"HELC"), MessageType::Invalid);
    assert_eq!(MessageHeader::message_type(b"HEL"), MessageType::Invalid);
    assert_eq!(MessageHeader::message_type(b"HELFF"), MessageType::Invalid);
    assert_eq!(MessageHeader::message_type(b"MSGF"), MessageType::Invalid);
    assert_eq!(MessageHeader::new(MessageType::Hello).message_size, 0);

    let invalid = MessageHeader::new(MessageType::Invalid);
    let mut out = Vec::new();
    assert_eq!(invalid.encode(&mut out), Err(StatusCode::BadEncodingLimitsExceeded));
    assert!(out.is_empty());
    let bytes = *b"WHAT\x08\x00\x00\x00";
    assert_eq!(
        MessageHeader::decode(&mut ReadStream::new(&bytes), &limits),
        Ok(MessageHeader { message_type: MessageType::Invalid, message_size: 8 })
    );
    assert_eq!(
        MessageHeader::decode(&mut ReadStream::new(&bytes[0..7]), &limits),
        Err(StatusCode::BadDecodingError)
    );

    let error = ErrorMessage::from_status_code(&StatusCode::BadTimeout);
    assert_eq!(error.error, 0x800A_0000);
    assert!(error.reason.is_null());
    let header = MessageHeader::new_error(&error);
    assert_eq!(header, MessageHeader { message_type: MessageType::Error, message_size: 16 });
    let with_reason = ErrorMessage { error: 1, reason: UAString::from_str("late") };
    assert_eq!(MessageHeader::new_error(&with_reason).message_size, 20);
    let mut out = Vec::new();
    with_reason.encode(&mut out).unwrap();
    assert_eq!(out, vec![1, 0, 0, 0, 4, 0, 0, 0, b'l', b'a', b't', b'e']);
    assert_eq!(ErrorMessage::decode(&mut ReadStream::new(&out), &limits), Ok(with_reason));
    let ack = AcknowledgeMessage {
        protocol_version: 1,
        receive_buffer_size: 2,
        send_buffer_size: 3,
        max_message_size: 4,
        max_chunk_count: 5,
    };
    assert_eq!(
        MessageHeader::new_acknowledge(&ack),
        MessageHeader { message_type: MessageType::Acknowledge, message_size: 28 }
    );
    assert!(hello("opc.tcp://a").is_endpoint_url_valid());
    assert!(!hello("opc.tcp:/").is_endpoint_url_valid());
    assert!(hello("opc.tcp://").is_endpoint_url_valid());
    assert!(hello("x").is_valid_buffer_sizes());
}
