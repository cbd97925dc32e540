//! The session of a server with one client: the handshake, the processing
//! of the messages that follow it, and the step that the loop around a
//! connection takes for each read.

use vstd::prelude::*;
use crate::chunk::{
    Chunk, Chunker, ChunkMessageType, chunk_decoding, open_secure_channel_request_of,
};
use crate::date_time::DateTime;
use crate::diagnostic_info::empty_diagnostic_info;
use crate::encoding::{BinaryEncoder, DecodingLimits, ReadStream, lemma_concat_assoc, seq_view};
use crate::extension_object::null_extension_object;
use crate::handshake::{
    AcknowledgeMessage, AcknowledgeMessageView, ErrorMessage, ErrorMessageView, HelloMessage,
    HelloMessageView, MessageHeader, MessageType, frame_size, is_buffer_sizes, is_endpoint_url,
};
use crate::service_types::ResponseHeader;
use crate::service_types::ResponseHeaderView;
use crate::service_types::channel_security_token::{ChannelSecurityToken, ChannelSecurityTokenView};
use crate::service_types::open_secure_channel_request::{
    OpenSecureChannelRequest, OpenSecureChannelRequestView,
};
use crate::service_types::open_secure_channel_response::{
    OpenSecureChannelResponse, OpenSecureChannelResponseView,
};
use crate::status_codes::StatusCode;

verus! {

/// Size of the buffer that the server receives into.
pub const RECEIVE_BUFFER_SIZE: usize = 32768;

/// Size of the buffer that the server sends from.
pub const SEND_BUFFER_SIZE: usize = 32768;

/// The largest message that the server takes.
pub const MAX_MESSAGE_SIZE: usize = 16384;

/// The largest number of chunks of a message that the server takes.
pub const MAX_CHUNK_COUNT: usize = 1;

/// The version of the protocol that the server speaks.
pub const SERVER_PROTOCOL_VERSION: u32 = 0;

/// The fewest bytes that make a frame: the size of a frame's header.
pub const MIN_FRAME_SIZE: usize = 8;

/// The states of a session. A session moves through them in this order and
/// never back.
#[derive(Clone, Copy, Debug, PartialEq, Eq, Structural)]
pub enum SessionState {
    New,
    WaitingHello,
    ProcessMessages,
    Finished,
}

/// The place of a state in the order of the states.
pub open spec fn state_rank(state: SessionState) -> int {
    match state {
        SessionState::New => 0,
        SessionState::WaitingHello => 1,
        SessionState::ProcessMessages => 2,
        SessionState::Finished => 3,
    }
}

/// The settings of a session.
#[derive(Clone, Copy, Debug, PartialEq, Eq, Structural)]
pub struct SessionConfig {
    /// How long the session waits for a HELLO, in milliseconds.
    pub hello_timeout: u32,
}

/// A subscription that a session has open.
#[derive(Clone, Copy, Debug, PartialEq, Eq, Structural)]
pub struct Subscription {
    pub subscription_id: u32,
}

/// What the loop around a connection does after a step of the session.
#[derive(Clone, Copy, Debug, PartialEq, Eq, Structural)]
pub enum SessionStep {
    /// Send what the step put out and read on.
    Continue,
    /// Send what the step put out and close the connection. The session has
    /// ended with the given status.
    Terminate(StatusCode),
}

/// The state of the session of a server with one client.
pub struct TcpSession {
    /// The current session state.
    pub session_state: SessionState,
    /// The subscriptions open for this session.
    pub subscriptions: Vec<Subscription>,
    /// The settings of the session.
    pub session_config: SessionConfig,
    /// Chunker for putting messages together.
    pub chunker: Chunker,
    /// Client protocol version set during HELLO.
    pub client_protocol_version: u32,
}

/// The ACKNOWLEDGE that the server answers a HELLO with: its protocol
/// version, its buffers and its limits on messages.
pub open spec fn acknowledge() -> AcknowledgeMessageView {
    AcknowledgeMessageView {
        protocol_version: SERVER_PROTOCOL_VERSION,
        receive_buffer_size: RECEIVE_BUFFER_SIZE as u32,
        send_buffer_size: SEND_BUFFER_SIZE as u32,
        max_message_size: MAX_MESSAGE_SIZE as u32,
        max_chunk_count: MAX_CHUNK_COUNT as u32,
    }
}

/// The frame that carries the ACKNOWLEDGE: its header, then the ACKNOWLEDGE.
pub open spec fn acknowledge_frame() -> Seq<u8> {
    MessageHeader::encoding(
        MessageHeader {
            message_type: MessageType::Acknowledge,
            message_size: frame_size(AcknowledgeMessage::encoding(acknowledge()).len()),
        },
    ) + AcknowledgeMessage::encoding(acknowledge())
}

/// The ERROR that reports a status.
pub open spec fn error_message(status: StatusCode) -> ErrorMessageView {
    ErrorMessageView { error: status.spec_bits(), reason: None }
}

/// The frame that carries the ERROR that reports a status.
pub open spec fn error_frame(status: StatusCode) -> Seq<u8> {
    MessageHeader::encoding(
        MessageHeader {
            message_type: MessageType::Error,
            message_size: frame_size(ErrorMessage::encoding(error_message(status)).len()),
        },
    ) + ErrorMessage::encoding(error_message(status))
}

/// What the server makes of what it reads while it waits for a HELLO. A
/// frame that is no well-formed HELLO is a communication error; so are
/// buffers that are too small. An endpoint URL that is not well-formed and a
/// protocol version above the server's have status codes of their own.
pub open spec fn hello_outcome(input: Seq<u8>, limits: DecodingLimits) -> Result<
    HelloMessageView,
    StatusCode,
> {
    match MessageHeader::decoding(input, limits) {
        Err(_) => Err(StatusCode::BadCommunicationError),
        Ok((header, rest)) => if header.message_type != MessageType::Hello {
            Err(StatusCode::BadCommunicationError)
        } else {
            match HelloMessage::decoding(rest, limits) {
                Err(_) => Err(StatusCode::BadCommunicationError),
                Ok((hello, _)) => if !is_endpoint_url(hello.endpoint_url) {
                    Err(StatusCode::BadTcpEndpointUrlInvalid)
                } else if !is_buffer_sizes(hello.receive_buffer_size, hello.send_buffer_size) {
                    Err(StatusCode::BadCommunicationError)
                } else if hello.protocol_version > SERVER_PROTOCOL_VERSION {
                    Err(StatusCode::BadProtocolVersionUnsupported)
                } else {
                    Ok(hello)
                },
            }
        },
    }
}

/// The response to a request to open a secure channel, made at the time
/// `now`: a good response to the request's handle, with a security token
/// made at that time.
pub open spec fn response_to(request: OpenSecureChannelRequestView, now: i64) -> OpenSecureChannelResponseView {
    OpenSecureChannelResponseView {
        response_header: ResponseHeaderView {
            timestamp: now,
            request_handle: request.request_header.request_handle,
            service_result: StatusCode::Good,
            service_diagnostics: empty_diagnostic_info(),
            string_table: None,
            additional_header: null_extension_object(),
        },
        server_protocol_version: SERVER_PROTOCOL_VERSION,
        security_token: ChannelSecurityTokenView {
            channel_id: 0,
            token_id: 0,
            created_at: now,
            revised_lifetime: 0,
        },
        server_nonce: None,
    }
}

/// What the server makes of what it reads once the handshake is done: a
/// chunk that opens a secure channel is taken where its request can be read;
/// chunks of the other kinds are not expected.
pub open spec fn message_outcome(input: Seq<u8>, chunker: Chunker) -> Result<
    OpenSecureChannelRequestView,
    StatusCode,
> {
    match chunk_decoding(input) {
        Err(e) => Err(e),
        Ok((chunk, _)) => match chunk.chunk_header.message_type {
            ChunkMessageType::OpenSecureChannel => open_secure_channel_request_of(
                seq![chunk],
                chunker.max_chunk_count,
                chunker.decoding_limits,
            ),
            _ => Err(StatusCode::BadUnexpectedError),
        },
    }
}

/// What a step of the session comes to.
pub struct StepOutcome {
    /// What the loop does next.
    pub step: SessionStep,
    /// The state after the step.
    pub session_state: SessionState,
    /// The client's protocol version after the step.
    pub client_protocol_version: u32,
    /// What the step puts out for the peer.
    pub output: Seq<u8>,
}

/// The end of a session with the given status: the state `Finished`, and an
/// ERROR for the peer unless the status is good.
pub open spec fn terminated(status: StatusCode, client_protocol_version: u32) -> StepOutcome {
    StepOutcome {
        step: SessionStep::Terminate(status),
        session_state: SessionState::Finished,
        client_protocol_version,
        output: if status == StatusCode::Good {
            Seq::empty()
        } else {
            error_frame(status)
        },
    }
}

/// The step that a session in the given state takes when `elapsed`
/// milliseconds have passed since its start and `input` was read.
///
/// A session that has waited for a HELLO for longer than its timeout ends
/// with a timeout, whatever was read. Else nothing read is nothing done;
/// fewer bytes than a frame's header are garbage and end the session without
/// a word; and a frame goes to the handshake or to the message processing,
/// whichever the state asks for. A status that is not good ends the session.
pub open spec fn step_outcome(
    session_state: SessionState,
    hello_timeout: u32,
    client_protocol_version: u32,
    chunker: Chunker,
    elapsed: u64,
    input: Seq<u8>,
) -> StepOutcome {
    if session_state == SessionState::WaitingHello && elapsed > hello_timeout {
        terminated(StatusCode::BadTimeout, client_protocol_version)
    } else if input.len() == 0 {
        StepOutcome {
            step: SessionStep::Continue,
            session_state,
            client_protocol_version,
            output: Seq::empty(),
        }
    } else if input.len() < MIN_FRAME_SIZE {
        terminated(StatusCode::Good, client_protocol_version)
    } else {
        match session_state {
            SessionState::WaitingHello => match hello_outcome(input, chunker.decoding_limits) {
                Ok(hello) => StepOutcome {
                    step: SessionStep::Continue,
                    session_state: SessionState::ProcessMessages,
                    client_protocol_version: hello.protocol_version,
                    output: acknowledge_frame(),
                },
                Err(e) => terminated(e, client_protocol_version),
            },
            SessionState::ProcessMessages => match message_outcome(input, chunker) {
                Ok(_) => StepOutcome {
                    step: SessionStep::Continue,
                    session_state,
                    client_protocol_version,
                    output: Seq::empty(),
                },
                Err(e) => terminated(e, client_protocol_version),
            },
            _ => terminated(StatusCode::BadUnexpectedError, client_protocol_version),
        }
    }
}

/// A session never moves back: the state after a step is the state before
/// it or a later one.
pub proof fn lemma_step_moves_forward(
    session_state: SessionState,
    hello_timeout: u32,
    client_protocol_version: u32,
    chunker: Chunker,
    elapsed: u64,
    input: Seq<u8>,
)
    ensures
        state_rank(
            step_outcome(
                session_state,
                hello_timeout,
                client_protocol_version,
                chunker,
                elapsed,
                input,
            ).session_state,
        ) >= state_rank(session_state),
{
}

/// A session that is told to close the connection is finished, and one that
/// is finished stays so.
pub proof fn lemma_step_terminates_finished(
    session_state: SessionState,
    hello_timeout: u32,
    client_protocol_version: u32,
    chunker: Chunker,
    elapsed: u64,
    input: Seq<u8>,
)
    ensures
        ({
            let outcome = step_outcome(
                session_state,
                hello_timeout,
                client_protocol_version,
                chunker,
                elapsed,
                input,
            );
            &&& outcome.step is Terminate ==> outcome.session_state == SessionState::Finished
            &&& session_state == SessionState::Finished ==> outcome.session_state
                == SessionState::Finished
        }),
{
}

/// A session that waits for a HELLO ends with a timeout once more than its
/// timeout has passed, and tells the peer so; within the timeout a HELLO that
/// is in order moves it on to the processing of messages and is answered with
/// the ACKNOWLEDGE.
pub proof fn lemma_hello_timing(
    hello_timeout: u32,
    client_protocol_version: u32,
    chunker: Chunker,
    elapsed: u64,
    input: Seq<u8>,
)
    ensures
        elapsed > hello_timeout ==> step_outcome(
            SessionState::WaitingHello,
            hello_timeout,
            client_protocol_version,
            chunker,
            elapsed,
            input,
        ) == (StepOutcome {
            step: SessionStep::Terminate(StatusCode::BadTimeout),
            session_state: SessionState::Finished,
            client_protocol_version,
            output: error_frame(StatusCode::BadTimeout),
        }),
        elapsed <= hello_timeout && input.len() >= MIN_FRAME_SIZE && hello_outcome(
            input,
            chunker.decoding_limits,
        ) is Ok ==> step_outcome(
            SessionState::WaitingHello,
            hello_timeout,
            client_protocol_version,
            chunker,
            elapsed,
            input,
        ) == (StepOutcome {
            step: SessionStep::Continue,
            session_state: SessionState::ProcessMessages,
            client_protocol_version: hello_outcome(
                input,
                chunker.decoding_limits,
            ).unwrap().protocol_version,
            output: acknowledge_frame(),
        }),
{
}

/// While a session waits for a HELLO, a frame of another kind is a
/// communication error and ends the session.
pub proof fn lemma_frame_before_hello(
    hello_timeout: u32,
    client_protocol_version: u32,
    chunker: Chunker,
    elapsed: u64,
    input: Seq<u8>,
)
    requires
        elapsed <= hello_timeout,
        input.len() >= MIN_FRAME_SIZE,
        MessageHeader::decoding(input, chunker.decoding_limits) matches Ok((header, _))
            && header.message_type != MessageType::Hello,
    ensures
        step_outcome(
            SessionState::WaitingHello,
            hello_timeout,
            client_protocol_version,
            chunker,
            elapsed,
            input,
        ) == terminated(StatusCode::BadCommunicationError, client_protocol_version),
{
}

impl TcpSession {
    /// A new session with the given settings.
    pub fn new(session_config: SessionConfig) -> (r: TcpSession)
        ensures
            r.session_state == SessionState::New,
            r.subscriptions@.len() == 0,
            r.session_config == session_config,
            r.chunker.max_chunk_count == MAX_CHUNK_COUNT,
            r.chunker.decoding_limits.max_string_length == crate::constants::MAX_STRING_LENGTH,
            r.chunker.decoding_limits.max_byte_string_length
                == crate::constants::MAX_BYTE_STRING_LENGTH,
            r.chunker.decoding_limits.max_array_length == crate::constants::MAX_ARRAY_LENGTH,
            r.client_protocol_version == 0,
    {
        TcpSession {
            subscriptions: Vec::new(),
            session_state: SessionState::New,
            session_config,
            chunker: Chunker::new(),
            client_protocol_version: 0,
        }
    }

    /// Starts a new session: from now on it waits for a HELLO. A session that
    /// was started before stays as it is.
    pub fn start(&mut self)
        ensures
            final(self).session_state == (if old(self).session_state == SessionState::New {
                SessionState::WaitingHello
            } else {
                old(self).session_state
            }),
            final(self).subscriptions == old(self).subscriptions,
            final(self).session_config == old(self).session_config,
            final(self).chunker == old(self).chunker,
            final(self).client_protocol_version == old(self).client_protocol_version,
    {
        match self.session_state {
            SessionState::New => {
                self.session_state = SessionState::WaitingHello;
            },
            _ => {},
        }
    }

    /// Appends the frame that carries the ERROR for a status to the output.
    pub fn write_error(status: StatusCode, out_stream: &mut Vec<u8>)
        ensures
            final(out_stream)@ == old(out_stream)@ + error_frame(status),
    {
        let error = ErrorMessage::from_status_code(&status);
        let header = MessageHeader::new_error(&error);
        let _ = header.encode(out_stream);
        let _ = error.encode(out_stream);
        proof {
            lemma_concat_assoc(
                old(out_stream)@,
                MessageHeader::encoding(header),
                ErrorMessage::encoding(error@),
            );
        }
    }

    /// Processes what was read while the session waits for a HELLO. A HELLO
    /// that is in order moves the session on to the processing of messages,
    /// sets the client's protocol version and puts the ACKNOWLEDGE out; else
    /// nothing changes and the status says what was wrong.
    pub fn process_hello(&mut self, in_stream: &mut ReadStream, out_stream: &mut Vec<u8>) -> (r:
        Result<(), StatusCode>)
        ensures
            match hello_outcome(old(in_stream)@, old(self).chunker.decoding_limits) {
                Ok(hello) => {
                    &&& r is Ok
                    &&& final(self).session_state == SessionState::ProcessMessages
                    &&& final(self).client_protocol_version == hello.protocol_version
                    &&& final(out_stream)@ == old(out_stream)@ + acknowledge_frame()
                },
                Err(e) => {
                    &&& r == Err::<(), StatusCode>(e)
                    &&& final(self).session_state == old(self).session_state
                    &&& final(self).client_protocol_version == old(self).client_protocol_version
                    &&& final(out_stream)@ == old(out_stream)@
                },
            },
            final(self).subscriptions == old(self).subscriptions,
            final(self).session_config == old(self).session_config,
            final(self).chunker == old(self).chunker,
    {
        let limits = self.chunker.decoding_limits;
        let header = match MessageHeader::decode(in_stream, &limits) {
            Ok(header) => header,
            Err(_) => {
                return Err(StatusCode::BadCommunicationError);
            },
        };
        if !header.is_hello() {
            return Err(StatusCode::BadCommunicationError);
        }
        let hello = match HelloMessage::decode(in_stream, &limits) {
            Ok(hello) => hello,
            Err(_) => {
                return Err(StatusCode::BadCommunicationError);
            },
        };
        if !hello.is_endpoint_url_valid() {
            return Err(StatusCode::BadTcpEndpointUrlInvalid);
        }
        if !hello.is_valid_buffer_sizes() {
            return Err(StatusCode::BadCommunicationError);
        }
        if hello.protocol_version > SERVER_PROTOCOL_VERSION {
            return Err(StatusCode::BadProtocolVersionUnsupported);
        }
        let acknowledge_message = AcknowledgeMessage {
            protocol_version: SERVER_PROTOCOL_VERSION,
            receive_buffer_size: RECEIVE_BUFFER_SIZE as u32,
            send_buffer_size: SEND_BUFFER_SIZE as u32,
            max_message_size: MAX_MESSAGE_SIZE as u32,
            max_chunk_count: MAX_CHUNK_COUNT as u32,
        };
        self.session_state = SessionState::ProcessMessages;
        self.client_protocol_version = hello.protocol_version;
        let acknowledge_header = MessageHeader::new_acknowledge(&acknowledge_message);
        let _ = acknowledge_header.encode(out_stream);
        let _ = acknowledge_message.encode(out_stream);
        proof {
            lemma_concat_assoc(
                old(out_stream)@,
                MessageHeader::encoding(acknowledge_header),
                AcknowledgeMessage::encoding(acknowledge_message@),
            );
        }
        Ok(())
    }

    /// The response to a request to open a secure channel, made at the given
    /// time.
    pub fn open_secure_channel_response(request: &OpenSecureChannelRequest, now: &DateTime) -> (r:
        OpenSecureChannelResponse)
        ensures
            r@ == response_to(request@, now@),
    {
        OpenSecureChannelResponse {
            response_header: ResponseHeader::new_service_result(
                now,
                &request.request_header,
                StatusCode::Good,
            ),
            server_protocol_version: SERVER_PROTOCOL_VERSION,
            security_token: ChannelSecurityToken {
                channel_id: 0,
                token_id: 0,
                created_at: *now,
                revised_lifetime: 0,
            },
            server_nonce: crate::byte_string::ByteString::null(),
        }
    }

    /// Reads the request to open a secure channel that a chunk carries and
    /// makes the response to it, at the present time.
    pub fn process_open_secure_channel(&self, chunk: &Chunk) -> (r: Result<
        OpenSecureChannelResponse,
        StatusCode,
    >)
        ensures
            match open_secure_channel_request_of(
                seq![chunk@],
                self.chunker.max_chunk_count,
                self.chunker.decoding_limits,
            ) {
                Ok(request) => r is Ok && r.unwrap()@ == response_to(
                    request,
                    r.unwrap()@.response_header.timestamp,
                ),
                Err(e) => r matches Err(x) && x == e,
            },
    {
        let chunks: Vec<&Chunk> = vec![chunk];
        assert(seq_view(chunks@) =~= seq![chunk@]);
        let request = self.chunker.decode_open_secure_channel_request(&chunks)?;
        let now = DateTime::now();
        Ok(TcpSession::open_secure_channel_response(&request, &now))
    }

    /// Processes what was read once the handshake is done. The status says
    /// what was wrong with it, if anything was.
    pub fn process_message(&self, in_stream: &mut ReadStream) -> (r: Result<(), StatusCode>)
        ensures
            match message_outcome(old(in_stream)@, self.chunker) {
                Ok(_) => r is Ok,
                Err(e) => r == Err::<(), StatusCode>(e),
            },
    {
        let chunk = Chunk::decode(in_stream)?;
        match chunk.chunk_header.message_type {
            ChunkMessageType::OpenSecureChannel => {
                let _ = self.process_open_secure_channel(&chunk)?;
                Ok(())
            },
            ChunkMessageType::CloseSecureChannel => Err(StatusCode::BadUnexpectedError),
            ChunkMessageType::Message => Err(StatusCode::BadUnexpectedError),
        }
    }

    /// Ends the session with the given status: the session is finished, and
    /// unless the status is good the output gets the ERROR that tells the
    /// peer.
    pub fn terminate(&mut self, status: StatusCode, out_stream: &mut Vec<u8>) -> (r: SessionStep)
        ensures
            r == SessionStep::Terminate(status),
            final(self).session_state == SessionState::Finished,
            final(out_stream)@ == old(out_stream)@ + terminated(
                status,
                old(self).client_protocol_version,
            ).output,
            final(self).subscriptions == old(self).subscriptions,
            final(self).session_config == old(self).session_config,
            final(self).chunker == old(self).chunker,
            final(self).client_protocol_version == old(self).client_protocol_version,
    {
        match status {
            StatusCode::Good => {
                assert(out_stream@ + Seq::<u8>::empty() =~= out_stream@);
            },
            _ => {
                TcpSession::write_error(status, out_stream);
            },
        }
        self.session_state = SessionState::Finished;
        SessionStep::Terminate(status)
    }

    /// Takes one step of the session: `elapsed` milliseconds have passed
    /// since the session started and `input` was read, which is empty where
    /// the read timed out. What the step puts out for the peer is appended to
    /// `out_stream`.
    pub fn poll(&mut self, elapsed: u64, input: &[u8], out_stream: &mut Vec<u8>) -> (r: SessionStep)
        ensures
            ({
                let outcome = step_outcome(
                    old(self).session_state,
                    old(self).session_config.hello_timeout,
                    old(self).client_protocol_version,
                    old(self).chunker,
                    elapsed,
                    input@,
                );
                &&& r == outcome.step
                &&& final(self).session_state == outcome.session_state
                &&& final(self).client_protocol_version == outcome.client_protocol_version
                &&& final(out_stream)@ == old(out_stream)@ + outcome.output
            }),
            final(self).subscriptions == old(self).subscriptions,
            final(self).session_config == old(self).session_config,
            final(self).chunker == old(self).chunker,
    {
        let waiting = match self.session_state {
            SessionState::WaitingHello => true,
            _ => false,
        };
        if waiting && elapsed > self.session_config.hello_timeout as u64 {
            return self.terminate(StatusCode::BadTimeout, out_stream);
        }
        if input.len() == 0 {
            assert(out_stream@ + Seq::<u8>::empty() =~= out_stream@);
            return SessionStep::Continue;
        }
        if input.len() < MIN_FRAME_SIZE {
            return self.terminate(StatusCode::Good, out_stream);
        }
        let mut in_stream = ReadStream::new(input);
        let result = match self.session_state {
            SessionState::WaitingHello => self.process_hello(&mut in_stream, out_stream),
            SessionState::ProcessMessages => {
                assert(out_stream@ + Seq::<u8>::empty() =~= out_stream@);
                self.process_message(&mut in_stream)
            },
            _ => Err(StatusCode::BadUnexpectedError),
        };
        match result {
            Ok(()) => SessionStep::Continue,
            Err(status) => self.terminate(status, out_stream),
        }
    }
}

} // verus!
