//! The frames of the handshake: HELLO, ACKNOWLEDGE and ERROR, and the header
//! in front of each.

use vstd::prelude::*;
use vstd::utf8::encode_utf8;
use crate::encoding::{
    BinaryEncoder, DecodingLimits, EncodingResult, ReadStream, add_part_len, lemma_concat_assoc,
    lemma_extends_refl, lemma_u32_round_trip, saturated, u32_decoding, u32_encoding, write_bytes,
    write_part, write_u32,
};
use crate::status_codes::StatusCode;
use crate::string::UAString;

verus! {

/// Size of the header in front of a frame of the handshake.
pub const MESSAGE_HEADER_LEN: usize = 8;

/// The smallest buffer that a peer may announce.
pub const MIN_BUFFER_SIZE: u32 = 8192;

/// The longest endpoint URL, in bytes.
pub const MAX_ENDPOINT_URL_LENGTH: usize = 4096;

/// The kinds of frame of the handshake.
#[derive(Debug, Copy, Clone, PartialEq, Eq, Structural)]
pub enum MessageType {
    /// Not a frame of the handshake.
    Invalid,
    Hello,
    Acknowledge,
    Error,
}

/// The four bytes that name a kind of frame: three letters and `F`.
pub open spec fn message_type_tag(message_type: MessageType) -> Seq<u8> {
    match message_type {
        MessageType::Hello => seq![0x48u8, 0x45u8, 0x4cu8, 0x46u8],
        MessageType::Acknowledge => seq![0x41u8, 0x43u8, 0x4bu8, 0x46u8],
        MessageType::Error => seq![0x45u8, 0x52u8, 0x52u8, 0x46u8],
        MessageType::Invalid => seq![0u8, 0u8, 0u8, 0u8],
    }
}

/// The kind of frame that four bytes name.
pub open spec fn message_type_of(tag: Seq<u8>) -> MessageType {
    if tag == message_type_tag(MessageType::Hello) {
        MessageType::Hello
    } else if tag == message_type_tag(MessageType::Acknowledge) {
        MessageType::Acknowledge
    } else if tag == message_type_tag(MessageType::Error) {
        MessageType::Error
    } else {
        MessageType::Invalid
    }
}

/// The header in front of a frame of the handshake.
#[derive(Debug, Copy, Clone, PartialEq, Eq, Structural)]
pub struct MessageHeader {
    /// The kind of frame.
    pub message_type: MessageType,
    /// Size of the frame in bytes, header included.
    pub message_size: u32,
}

impl View for MessageHeader {
    type V = MessageHeader;

    open spec fn view(&self) -> MessageHeader {
        *self
    }
}

/// Size of a frame whose body has the given size, as far as a `u32` holds it.
pub open spec fn frame_size(body_len: nat) -> u32 {
    if body_len + MESSAGE_HEADER_LEN <= u32::MAX {
        (body_len + MESSAGE_HEADER_LEN) as u32
    } else {
        u32::MAX
    }
}

impl MessageHeader {
    /// A header for a frame of the given kind, with no size yet.
    pub fn new(message_type: MessageType) -> (r: MessageHeader)
        ensures
            r == (MessageHeader { message_type, message_size: 0 }),
    {
        MessageHeader { message_type, message_size: 0 }
    }

    /// The header in front of the given ACKNOWLEDGE.
    pub fn new_acknowledge(acknowledge: &AcknowledgeMessage) -> (r: MessageHeader)
        ensures
            r == (MessageHeader {
                message_type: MessageType::Acknowledge,
                message_size: frame_size(AcknowledgeMessage::encoding(acknowledge@).len()),
            }),
    {
        MessageHeader {
            message_type: MessageType::Acknowledge,
            message_size: MessageHeader::size_with_body(acknowledge.byte_len()),
        }
    }

    /// The header in front of the given ERROR.
    pub fn new_error(error: &ErrorMessage) -> (r: MessageHeader)
        ensures
            r == (MessageHeader {
                message_type: MessageType::Error,
                message_size: frame_size(ErrorMessage::encoding(error@).len()),
            }),
    {
        MessageHeader {
            message_type: MessageType::Error,
            message_size: MessageHeader::size_with_body(error.byte_len()),
        }
    }

    fn size_with_body(body_len: usize) -> (r: u32)
        ensures
            forall|n: nat| body_len == saturated(n) ==> r == frame_size(n),
    {
        if body_len <= 0xffff_ffff - MESSAGE_HEADER_LEN {
            (body_len + MESSAGE_HEADER_LEN) as u32
        } else {
            u32::MAX
        }
    }

    pub fn is_hello(&self) -> (r: bool)
        ensures
            r == (self.message_type == MessageType::Hello),
    {
        match self.message_type {
            MessageType::Hello => true,
            _ => false,
        }
    }

    pub fn is_acknowledge(&self) -> (r: bool)
        ensures
            r == (self.message_type == MessageType::Acknowledge),
    {
        match self.message_type {
            MessageType::Acknowledge => true,
            _ => false,
        }
    }

    pub fn is_error(&self) -> (r: bool)
        ensures
            r == (self.message_type == MessageType::Error),
    {
        match self.message_type {
            MessageType::Error => true,
            _ => false,
        }
    }

    /// The kind of frame that the four bytes in front of a frame name.
    pub fn message_type(tag: &[u8]) -> (r: MessageType)
        ensures
            r == message_type_of(tag@),
    {
        if tag.len() != 4 {
            assert(tag@.len() != message_type_tag(MessageType::Hello).len());
            return MessageType::Invalid;
        }
        if tag[3] != 0x46 {
            return MessageType::Invalid;
        }
        if tag[0] == 0x48 && tag[1] == 0x45 && tag[2] == 0x4c {
            assert(tag@ =~= message_type_tag(MessageType::Hello));
            MessageType::Hello
        } else if tag[0] == 0x41 && tag[1] == 0x43 && tag[2] == 0x4b {
            assert(tag@ =~= message_type_tag(MessageType::Acknowledge));
            MessageType::Acknowledge
        } else if tag[0] == 0x45 && tag[1] == 0x52 && tag[2] == 0x52 {
            assert(tag@ =~= message_type_tag(MessageType::Error));
            MessageType::Error
        } else {
            MessageType::Invalid
        }
    }
}

/// Wire form of a header: the four bytes of the kind, then the size.
pub open spec fn message_header_encoding(v: MessageHeader) -> Seq<u8> {
    message_type_tag(v.message_type) + u32_encoding(v.message_size)
}

/// A header off the front of `s`. Four bytes that name no kind of frame give
/// the kind `Invalid`.
#[verifier::opaque]
pub open spec fn message_header_decoding(s: Seq<u8>) -> Result<(MessageHeader, Seq<u8>), StatusCode> {
    if s.len() < 4 {
        Err(StatusCode::BadDecodingError)
    } else {
        match u32_decoding(s.skip(4)) {
            Err(e) => Err(e),
            Ok((message_size, rest)) => Ok(
                (MessageHeader { message_type: message_type_of(s.take(4)), message_size }, rest),
            ),
        }
    }
}

impl BinaryEncoder for MessageHeader {
    open spec fn encoding(v: MessageHeader) -> Seq<u8> {
        message_header_encoding(v)
    }

    /// The kind `Invalid` has no wire form.
    open spec fn encodable(v: MessageHeader) -> bool {
        v.message_type != MessageType::Invalid
    }

    open spec fn within(v: MessageHeader, limits: DecodingLimits) -> bool {
        true
    }

    open spec fn decoding(s: Seq<u8>, limits: DecodingLimits) -> Result<
        (MessageHeader, Seq<u8>),
        StatusCode,
    > {
        message_header_decoding(s)
    }

    proof fn lemma_round_trip(v: MessageHeader, rest: Seq<u8>, limits: DecodingLimits) {
        reveal(message_header_decoding);
        let tag = message_type_tag(v.message_type);
        let r1 = u32_encoding(v.message_size) + rest;
        let s = Self::encoding(v) + rest;
        lemma_concat_assoc(tag, u32_encoding(v.message_size), rest);
        lemma_u32_round_trip(v.message_size, rest);
        assert(s.take(4) =~= tag);
        assert(s.skip(4) =~= r1);
        assert(message_type_tag(MessageType::Hello)[0] != message_type_tag(
            MessageType::Acknowledge,
        )[0]);
        assert(message_type_tag(MessageType::Hello)[1] != message_type_tag(MessageType::Error)[1]);
        assert(message_type_tag(MessageType::Acknowledge)[0] != message_type_tag(
            MessageType::Error,
        )[0]);
    }

    fn byte_len(&self) -> (r: usize) {
        proof {
            lemma_u32_round_trip(self.message_size, Seq::empty());
        }
        MESSAGE_HEADER_LEN
    }

    fn encode(&self, stream: &mut Vec<u8>) -> (r: EncodingResult<usize>) {
        proof {
            lemma_u32_round_trip(self.message_size, Seq::empty());
            lemma_extends_refl(stream@);
        }
        match self.message_type {
            MessageType::Hello => {
                let tag: [u8; 4] = [0x48, 0x45, 0x4c, 0x46];
                write_bytes(stream, tag.as_slice())?;
                assert(tag@ =~= message_type_tag(MessageType::Hello));
            },
            MessageType::Acknowledge => {
                let tag: [u8; 4] = [0x41, 0x43, 0x4b, 0x46];
                write_bytes(stream, tag.as_slice())?;
                assert(tag@ =~= message_type_tag(MessageType::Acknowledge));
            },
            MessageType::Error => {
                let tag: [u8; 4] = [0x45, 0x52, 0x52, 0x46];
                write_bytes(stream, tag.as_slice())?;
                assert(tag@ =~= message_type_tag(MessageType::Error));
            },
            MessageType::Invalid => {
                return Err(StatusCode::BadEncodingLimitsExceeded);
            },
        }
        write_u32(stream, self.message_size)?;
        proof {
            lemma_concat_assoc(
                old(stream)@,
                message_type_tag(self.message_type),
                u32_encoding(self.message_size),
            );
        }
        Ok(MESSAGE_HEADER_LEN)
    }

    fn decode(stream: &mut ReadStream, limits: &DecodingLimits) -> (r: EncodingResult<Self>) {
        proof {
            reveal(message_header_decoding);
        }
        let tag = stream.read_bytes(4)?;
        let message_type = MessageHeader::message_type(tag);
        let message_size = crate::encoding::read_u32(stream)?;
        Ok(MessageHeader { message_type, message_size })
    }
}

/// The frame by which a client opens a connection.
#[derive(Clone, Debug, PartialEq, Eq)]
pub struct HelloMessage {
    /// The version of the protocol that the client asks for.
    pub protocol_version: u32,
    /// The largest chunk that the client takes.
    pub receive_buffer_size: u32,
    /// The largest chunk that the client sends.
    pub send_buffer_size: u32,
    /// The largest message that the client takes; 0 for no limit.
    pub max_message_size: u32,
    /// The largest number of chunks of a message that the client takes; 0 for no limit.
    pub max_chunk_count: u32,
    /// The endpoint that the client wants to reach.
    pub endpoint_url: UAString,
}

/// The value of a `HelloMessage`.
pub struct HelloMessageView {
    pub protocol_version: u32,
    pub receive_buffer_size: u32,
    pub send_buffer_size: u32,
    pub max_message_size: u32,
    pub max_chunk_count: u32,
    pub endpoint_url: Option<Seq<char>>,
}

impl View for HelloMessage {
    type V = HelloMessageView;

    open spec fn view(&self) -> HelloMessageView {
        HelloMessageView {
            protocol_version: self.protocol_version,
            receive_buffer_size: self.receive_buffer_size,
            send_buffer_size: self.send_buffer_size,
            max_message_size: self.max_message_size,
            max_chunk_count: self.max_chunk_count,
            endpoint_url: self.endpoint_url@,
        }
    }
}
/// The bytes `opc.tcp://` that an endpoint URL starts with.
pub open spec fn endpoint_scheme() -> Seq<u8> {
    seq![0x6fu8, 0x70u8, 0x63u8, 0x2eu8, 0x74u8, 0x63u8, 0x70u8, 0x3au8, 0x2fu8, 0x2fu8]
}

/// The URL is well-formed: it is there, its UTF-8 form starts with
/// `opc.tcp://` and is at most 4096 bytes long.
pub open spec fn is_endpoint_url(url: Option<Seq<char>>) -> bool {
    match url {
        None => false,
        Some(chars) => encode_utf8(chars).len() <= MAX_ENDPOINT_URL_LENGTH
            && endpoint_scheme().is_prefix_of(encode_utf8(chars)),
    }
}

/// Both buffers are at least as large as the smallest that the protocol
/// allows.
pub open spec fn is_buffer_sizes(receive_buffer_size: u32, send_buffer_size: u32) -> bool {
    receive_buffer_size >= MIN_BUFFER_SIZE && send_buffer_size >= MIN_BUFFER_SIZE
}

impl HelloMessage {
    /// Tests whether the endpoint URL is well-formed.
    pub fn is_endpoint_url_valid(&self) -> (r: bool)
        ensures
            r == is_endpoint_url(self@.endpoint_url),
    {
        match &self.endpoint_url.value {
            None => false,
            Some(url) => {
                let bytes = url.as_str().as_bytes();
                if bytes.len() > MAX_ENDPOINT_URL_LENGTH || bytes.len() < 10 {
                    return false;
                }
                let starts = bytes[0] == 0x6f && bytes[1] == 0x70 && bytes[2] == 0x63 && bytes[3]
                    == 0x2e && bytes[4] == 0x74 && bytes[5] == 0x63 && bytes[6] == 0x70 && bytes[7]
                    == 0x3a && bytes[8] == 0x2f && bytes[9] == 0x2f;
                proof {
                    let scheme = endpoint_scheme();
                    if starts {
                        assert(scheme =~= bytes@.subrange(0, 10));
                    } else {
                        if scheme.is_prefix_of(bytes@) {
                            assert(forall|i: int| 0 <= i < 10 ==> bytes@.subrange(0, 10)[i]
                                == scheme[i]);
                        }
                    }
                }
                starts
            },
        }
    }

    /// Tests whether the buffers that the client announces are large enough.
    pub fn is_valid_buffer_sizes(&self) -> (r: bool)
        ensures
            r == is_buffer_sizes(self@.receive_buffer_size, self@.send_buffer_size),
    {
        self.receive_buffer_size >= MIN_BUFFER_SIZE && self.send_buffer_size >= MIN_BUFFER_SIZE
    }
}

/// Wire form of a `HelloMessage`: its fields in the order of their declaration.
pub open spec fn hello_message_encoding(v: HelloMessageView) -> Seq<u8> {
    u32::encoding(v.protocol_version) + u32::encoding(v.receive_buffer_size)
        + u32::encoding(v.send_buffer_size) + u32::encoding(v.max_message_size)
        + u32::encoding(v.max_chunk_count) + UAString::encoding(v.endpoint_url)
}

/// A `HelloMessage` off the front of `s`: its fields, one behind the other.
#[verifier::opaque]
pub open spec fn hello_message_decoding(s: Seq<u8>, limits: DecodingLimits) -> Result<
    (HelloMessageView, Seq<u8>),
    StatusCode,
> {
    match u32::decoding(s, limits) {
        Err(e) => Err(e),
        Ok((protocol_version, s)) =>
            match u32::decoding(s, limits) {
                Err(e) => Err(e),
                Ok((receive_buffer_size, s)) =>
                    match u32::decoding(s, limits) {
                        Err(e) => Err(e),
                        Ok((send_buffer_size, s)) =>
                            match u32::decoding(s, limits) {
                                Err(e) => Err(e),
                                Ok((max_message_size, s)) =>
                                    match u32::decoding(s, limits) {
                                        Err(e) => Err(e),
                                        Ok((max_chunk_count, s)) =>
                                            match UAString::decoding(s, limits) {
                                                Err(e) => Err(e),
                                                Ok((endpoint_url, s)) =>
                                                    Ok((
                                                        HelloMessageView {
                                                            protocol_version,
                                                            receive_buffer_size,
                                                            send_buffer_size,
                                                            max_message_size,
                                                            max_chunk_count,
                                                            endpoint_url,
                                                        },
                                                        s,
                                                    )),
                                            },
                                    },
                            },
                    },
            },
    }
}

impl BinaryEncoder for HelloMessage {
    open spec fn encoding(v: HelloMessageView) -> Seq<u8> {
        hello_message_encoding(v)
    }

    open spec fn encodable(v: HelloMessageView) -> bool {
        &&& UAString::encodable(v.endpoint_url)
    }

    open spec fn within(v: HelloMessageView, limits: DecodingLimits) -> bool {
        &&& UAString::within(v.endpoint_url, limits)
    }

    open spec fn decoding(s: Seq<u8>, limits: DecodingLimits) -> Result<
        (HelloMessageView, Seq<u8>),
        StatusCode,
    > {
        hello_message_decoding(s, limits)
    }

    proof fn lemma_round_trip(v: HelloMessageView, rest: Seq<u8>, limits: DecodingLimits) {
        reveal(hello_message_decoding);
        let p0 = u32::encoding(v.protocol_version);
        let p1 = u32::encoding(v.receive_buffer_size);
        let p2 = u32::encoding(v.send_buffer_size);
        let p3 = u32::encoding(v.max_message_size);
        let p4 = u32::encoding(v.max_chunk_count);
        let p5 = UAString::encoding(v.endpoint_url);
        let r5 = p5 + rest;
        let r4 = p4 + r5;
        let r3 = p3 + r4;
        let r2 = p2 + r3;
        let r1 = p1 + r2;
        lemma_concat_assoc(p0 + p1 + p2 + p3 + p4, p5, rest);
        lemma_concat_assoc(p0 + p1 + p2 + p3, p4, r5);
        lemma_concat_assoc(p0 + p1 + p2, p3, r4);
        lemma_concat_assoc(p0 + p1, p2, r3);
        lemma_concat_assoc(p0, p1, r2);
        u32::lemma_round_trip(v.protocol_version, r1, limits);
        u32::lemma_round_trip(v.receive_buffer_size, r2, limits);
        u32::lemma_round_trip(v.send_buffer_size, r3, limits);
        u32::lemma_round_trip(v.max_message_size, r4, limits);
        u32::lemma_round_trip(v.max_chunk_count, r5, limits);
        UAString::lemma_round_trip(v.endpoint_url, rest, limits);
    }

    fn byte_len(&self) -> (r: usize) {
        let ghost v = self@;
        let ghost e0 = u32::encoding(v.protocol_version);
        let ghost e1 = e0 + u32::encoding(v.receive_buffer_size);
        let ghost e2 = e1 + u32::encoding(v.send_buffer_size);
        let ghost e3 = e2 + u32::encoding(v.max_message_size);
        let ghost e4 = e3 + u32::encoding(v.max_chunk_count);
        let ghost e5 = e4 + UAString::encoding(v.endpoint_url);
        let mut size: usize = self.protocol_version.byte_len();
        size = add_part_len(
            size,
            self.receive_buffer_size.byte_len(),
            Ghost(e0),
            Ghost(u32::encoding(v.receive_buffer_size)),
        );
        size = add_part_len(
            size,
            self.send_buffer_size.byte_len(),
            Ghost(e1),
            Ghost(u32::encoding(v.send_buffer_size)),
        );
        size = add_part_len(
            size,
            self.max_message_size.byte_len(),
            Ghost(e2),
            Ghost(u32::encoding(v.max_message_size)),
        );
        size = add_part_len(
            size,
            self.max_chunk_count.byte_len(),
            Ghost(e3),
            Ghost(u32::encoding(v.max_chunk_count)),
        );
        size = add_part_len(
            size,
            self.endpoint_url.byte_len(),
            Ghost(e4),
            Ghost(UAString::encoding(v.endpoint_url)),
        );
        size
    }

    fn encode(&self, stream: &mut Vec<u8>) -> (r: EncodingResult<usize>) {
        let start = stream.len();
        let ghost o = stream@;
        let ghost v = self@;
        proof {
            lemma_extends_refl(o);
        }
        write_part(stream, &self.protocol_version, Ghost(o))?;
        write_part(stream, &self.receive_buffer_size, Ghost(o))?;
        write_part(stream, &self.send_buffer_size, Ghost(o))?;
        write_part(stream, &self.max_message_size, Ghost(o))?;
        write_part(stream, &self.max_chunk_count, Ghost(o))?;
        write_part(stream, &self.endpoint_url, Ghost(o))?;
        proof {
            let p0 = u32::encoding(v.protocol_version);
            let p1 = u32::encoding(v.receive_buffer_size);
            let p2 = u32::encoding(v.send_buffer_size);
            let p3 = u32::encoding(v.max_message_size);
            let p4 = u32::encoding(v.max_chunk_count);
            let p5 = UAString::encoding(v.endpoint_url);
            lemma_concat_assoc(o, p0, p1);
            lemma_concat_assoc(o, p0 + p1, p2);
            lemma_concat_assoc(o, p0 + p1 + p2, p3);
            lemma_concat_assoc(o, p0 + p1 + p2 + p3, p4);
            lemma_concat_assoc(o, p0 + p1 + p2 + p3 + p4, p5);
        }
        Ok(stream.len() - start)
    }

    fn decode(stream: &mut ReadStream, limits: &DecodingLimits) -> (r: EncodingResult<Self>) {
        proof {
            reveal(hello_message_decoding);
        }
        let protocol_version = u32::decode(stream, limits)?;
        let receive_buffer_size = u32::decode(stream, limits)?;
        let send_buffer_size = u32::decode(stream, limits)?;
        let max_message_size = u32::decode(stream, limits)?;
        let max_chunk_count = u32::decode(stream, limits)?;
        let endpoint_url = UAString::decode(stream, limits)?;
        Ok(
            HelloMessage {
                protocol_version,
                receive_buffer_size,
                send_buffer_size,
                max_message_size,
                max_chunk_count,
                endpoint_url,
            },
        )
    }
}

/// The frame by which a server accepts a connection.
#[derive(Clone, Copy, Debug, PartialEq, Eq)]
pub struct AcknowledgeMessage {
    /// The version of the protocol that the server speaks.
    pub protocol_version: u32,
    /// The largest chunk that the server takes.
    pub receive_buffer_size: u32,
    /// The largest chunk that the server sends.
    pub send_buffer_size: u32,
    /// The largest message that the server takes.
    pub max_message_size: u32,
    /// The largest number of chunks of a message that the server takes.
    pub max_chunk_count: u32,
}

/// The value of a `AcknowledgeMessage`.
pub struct AcknowledgeMessageView {
    pub protocol_version: u32,
    pub receive_buffer_size: u32,
    pub send_buffer_size: u32,
    pub max_message_size: u32,
    pub max_chunk_count: u32,
}

impl View for AcknowledgeMessage {
    type V = AcknowledgeMessageView;

    open spec fn view(&self) -> AcknowledgeMessageView {
        AcknowledgeMessageView {
            protocol_version: self.protocol_version,
            receive_buffer_size: self.receive_buffer_size,
            send_buffer_size: self.send_buffer_size,
            max_message_size: self.max_message_size,
            max_chunk_count: self.max_chunk_count,
        }
    }
}
/// Wire form of a `AcknowledgeMessage`: its fields in the order of their declaration.
pub open spec fn acknowledge_message_encoding(v: AcknowledgeMessageView) -> Seq<u8> {
    u32::encoding(v.protocol_version) + u32::encoding(v.receive_buffer_size)
        + u32::encoding(v.send_buffer_size) + u32::encoding(v.max_message_size)
        + u32::encoding(v.max_chunk_count)
}

/// A `AcknowledgeMessage` off the front of `s`: its fields, one behind the other.
#[verifier::opaque]
pub open spec fn acknowledge_message_decoding(s: Seq<u8>, limits: DecodingLimits) -> Result<
    (AcknowledgeMessageView, Seq<u8>),
    StatusCode,
> {
    match u32::decoding(s, limits) {
        Err(e) => Err(e),
        Ok((protocol_version, s)) =>
            match u32::decoding(s, limits) {
                Err(e) => Err(e),
                Ok((receive_buffer_size, s)) =>
                    match u32::decoding(s, limits) {
                        Err(e) => Err(e),
                        Ok((send_buffer_size, s)) =>
                            match u32::decoding(s, limits) {
                                Err(e) => Err(e),
                                Ok((max_message_size, s)) =>
                                    match u32::decoding(s, limits) {
                                        Err(e) => Err(e),
                                        Ok((max_chunk_count, s)) =>
                                            Ok((
                                                AcknowledgeMessageView {
                                                    protocol_version,
                                                    receive_buffer_size,
                                                    send_buffer_size,
                                                    max_message_size,
                                                    max_chunk_count,
                                                },
                                                s,
                                            )),
                                    },
                            },
                    },
            },
    }
}

impl BinaryEncoder for AcknowledgeMessage {
    open spec fn encoding(v: AcknowledgeMessageView) -> Seq<u8> {
        acknowledge_message_encoding(v)
    }

    open spec fn encodable(v: AcknowledgeMessageView) -> bool {
        true
    }

    open spec fn within(v: AcknowledgeMessageView, limits: DecodingLimits) -> bool {
        true
    }

    open spec fn decoding(s: Seq<u8>, limits: DecodingLimits) -> Result<
        (AcknowledgeMessageView, Seq<u8>),
        StatusCode,
    > {
        acknowledge_message_decoding(s, limits)
    }

    proof fn lemma_round_trip(v: AcknowledgeMessageView, rest: Seq<u8>, limits: DecodingLimits) {
        reveal(acknowledge_message_decoding);
        let p0 = u32::encoding(v.protocol_version);
        let p1 = u32::encoding(v.receive_buffer_size);
        let p2 = u32::encoding(v.send_buffer_size);
        let p3 = u32::encoding(v.max_message_size);
        let p4 = u32::encoding(v.max_chunk_count);
        let r4 = p4 + rest;
        let r3 = p3 + r4;
        let r2 = p2 + r3;
        let r1 = p1 + r2;
        lemma_concat_assoc(p0 + p1 + p2 + p3, p4, rest);
        lemma_concat_assoc(p0 + p1 + p2, p3, r4);
        lemma_concat_assoc(p0 + p1, p2, r3);
        lemma_concat_assoc(p0, p1, r2);
        u32::lemma_round_trip(v.protocol_version, r1, limits);
        u32::lemma_round_trip(v.receive_buffer_size, r2, limits);
        u32::lemma_round_trip(v.send_buffer_size, r3, limits);
        u32::lemma_round_trip(v.max_message_size, r4, limits);
        u32::lemma_round_trip(v.max_chunk_count, rest, limits);
    }

    fn byte_len(&self) -> (r: usize) {
        let ghost v = self@;
        let ghost e0 = u32::encoding(v.protocol_version);
        let ghost e1 = e0 + u32::encoding(v.receive_buffer_size);
        let ghost e2 = e1 + u32::encoding(v.send_buffer_size);
        let ghost e3 = e2 + u32::encoding(v.max_message_size);
        let ghost e4 = e3 + u32::encoding(v.max_chunk_count);
        let mut size: usize = self.protocol_version.byte_len();
        size = add_part_len(
            size,
            self.receive_buffer_size.byte_len(),
            Ghost(e0),
            Ghost(u32::encoding(v.receive_buffer_size)),
        );
        size = add_part_len(
            size,
            self.send_buffer_size.byte_len(),
            Ghost(e1),
            Ghost(u32::encoding(v.send_buffer_size)),
        );
        size = add_part_len(
            size,
            self.max_message_size.byte_len(),
            Ghost(e2),
            Ghost(u32::encoding(v.max_message_size)),
        );
        size = add_part_len(
            size,
            self.max_chunk_count.byte_len(),
            Ghost(e3),
            Ghost(u32::encoding(v.max_chunk_count)),
        );
        size
    }

    fn encode(&self, stream: &mut Vec<u8>) -> (r: EncodingResult<usize>) {
        let start = stream.len();
        let ghost o = stream@;
        let ghost v = self@;
        proof {
            lemma_extends_refl(o);
        }
        write_part(stream, &self.protocol_version, Ghost(o))?;
        write_part(stream, &self.receive_buffer_size, Ghost(o))?;
        write_part(stream, &self.send_buffer_size, Ghost(o))?;
        write_part(stream, &self.max_message_size, Ghost(o))?;
        write_part(stream, &self.max_chunk_count, Ghost(o))?;
        proof {
            let p0 = u32::encoding(v.protocol_version);
            let p1 = u32::encoding(v.receive_buffer_size);
            let p2 = u32::encoding(v.send_buffer_size);
            let p3 = u32::encoding(v.max_message_size);
            let p4 = u32::encoding(v.max_chunk_count);
            lemma_concat_assoc(o, p0, p1);
            lemma_concat_assoc(o, p0 + p1, p2);
            lemma_concat_assoc(o, p0 + p1 + p2, p3);
            lemma_concat_assoc(o, p0 + p1 + p2 + p3, p4);
        }
        Ok(stream.len() - start)
    }

    fn decode(stream: &mut ReadStream, limits: &DecodingLimits) -> (r: EncodingResult<Self>) {
        proof {
            reveal(acknowledge_message_decoding);
        }
        let protocol_version = u32::decode(stream, limits)?;
        let receive_buffer_size = u32::decode(stream, limits)?;
        let send_buffer_size = u32::decode(stream, limits)?;
        let max_message_size = u32::decode(stream, limits)?;
        let max_chunk_count = u32::decode(stream, limits)?;
        Ok(
            AcknowledgeMessage {
                protocol_version,
                receive_buffer_size,
                send_buffer_size,
                max_message_size,
                max_chunk_count,
            },
        )
    }
}

/// The frame by which a peer says why it closes the connection.
#[derive(Clone, Debug, PartialEq, Eq)]
pub struct ErrorMessage {
    /// The number of the status code.
    pub error: u32,
    /// What went wrong, in words.
    pub reason: UAString,
}

/// The value of a `ErrorMessage`.
pub struct ErrorMessageView {
    pub error: u32,
    pub reason: Option<Seq<char>>,
}

impl View for ErrorMessage {
    type V = ErrorMessageView;

    open spec fn view(&self) -> ErrorMessageView {
        ErrorMessageView {
            error: self.error,
            reason: self.reason@,
        }
    }
}
impl ErrorMessage {
    /// The ERROR that reports the given status code, without a reason in
    /// words.
    pub fn from_status_code(status_code: &StatusCode) -> (r: ErrorMessage)
        ensures
            r@ == (ErrorMessageView { error: status_code.spec_bits(), reason: None }),
    {
        ErrorMessage { error: status_code.bits(), reason: UAString::null() }
    }
}

/// Wire form of a `ErrorMessage`: its fields in the order of their declaration.
pub open spec fn error_message_encoding(v: ErrorMessageView) -> Seq<u8> {
    u32::encoding(v.error) + UAString::encoding(v.reason)
}

/// A `ErrorMessage` off the front of `s`: its fields, one behind the other.
#[verifier::opaque]
pub open spec fn error_message_decoding(s: Seq<u8>, limits: DecodingLimits) -> Result<
    (ErrorMessageView, Seq<u8>),
    StatusCode,
> {
    match u32::decoding(s, limits) {
        Err(e) => Err(e),
        Ok((error, s)) =>
            match UAString::decoding(s, limits) {
                Err(e) => Err(e),
                Ok((reason, s)) =>
                    Ok((ErrorMessageView { error, reason }, s)),
            },
    }
}

impl BinaryEncoder for ErrorMessage {
    open spec fn encoding(v: ErrorMessageView) -> Seq<u8> {
        error_message_encoding(v)
    }

    open spec fn encodable(v: ErrorMessageView) -> bool {
        &&& UAString::encodable(v.reason)
    }

    open spec fn within(v: ErrorMessageView, limits: DecodingLimits) -> bool {
        &&& UAString::within(v.reason, limits)
    }

    open spec fn decoding(s: Seq<u8>, limits: DecodingLimits) -> Result<
        (ErrorMessageView, Seq<u8>),
        StatusCode,
    > {
        error_message_decoding(s, limits)
    }

    proof fn lemma_round_trip(v: ErrorMessageView, rest: Seq<u8>, limits: DecodingLimits) {
        reveal(error_message_decoding);
        let p0 = u32::encoding(v.error);
        let p1 = UAString::encoding(v.reason);
        let r1 = p1 + rest;
        lemma_concat_assoc(p0, p1, rest);
        u32::lemma_round_trip(v.error, r1, limits);
        UAString::lemma_round_trip(v.reason, rest, limits);
    }

    fn byte_len(&self) -> (r: usize) {
        let ghost v = self@;
        let ghost e0 = u32::encoding(v.error);
        let ghost e1 = e0 + UAString::encoding(v.reason);
        let mut size: usize = self.error.byte_len();
        size = add_part_len(
            size,
            self.reason.byte_len(),
            Ghost(e0),
            Ghost(UAString::encoding(v.reason)),
        );
        size
    }

    fn encode(&self, stream: &mut Vec<u8>) -> (r: EncodingResult<usize>) {
        let start = stream.len();
        let ghost o = stream@;
        let ghost v = self@;
        proof {
            lemma_extends_refl(o);
        }
        write_part(stream, &self.error, Ghost(o))?;
        write_part(stream, &self.reason, Ghost(o))?;
        proof {
            let p0 = u32::encoding(v.error);
            let p1 = UAString::encoding(v.reason);
            lemma_concat_assoc(o, p0, p1);
        }
        Ok(stream.len() - start)
    }

    fn decode(stream: &mut ReadStream, limits: &DecodingLimits) -> (r: EncodingResult<Self>) {
        proof {
            reveal(error_message_decoding);
        }
        let error = u32::decode(stream, limits)?;
        let reason = UAString::decode(stream, limits)?;
        Ok(ErrorMessage { error, reason })
    }
}

} // verus!
