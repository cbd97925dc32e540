//! Chunks: the frames that carry the messages of a secure channel, and the
//! chunker that puts the chunks of a message together.

use vstd::prelude::*;
use crate::byte_string::ByteString;
use crate::encoding::{
    BinaryEncoder, DecodingLimits, EncodingResult, ReadStream, add_part_len, lemma_concat_assoc,
    lemma_extends_refl, lemma_u32_round_trip, read_u32, seq_view, u32_decoding, u32_encoding,
    write_bytes, write_part, write_u32,
};
use crate::node_id::{NodeId, numeric_node_id};
use crate::node_ids::ObjectId;
use crate::service_types::open_secure_channel_request::{
    OpenSecureChannelRequest, OpenSecureChannelRequestView,
};
use crate::status_codes::StatusCode;
use crate::string::UAString;

verus! {

/// Size of the header of a chunk.
pub const CHUNK_HEADER_SIZE: usize = 12;

/// The largest number of chunks that a message may come in.
pub const MAX_CHUNK_COUNT: usize = 1;

/// The kinds of message that chunks carry.
#[derive(Debug, Copy, Clone, PartialEq, Eq, Structural)]
pub enum ChunkMessageType {
    Message,
    OpenSecureChannel,
    CloseSecureChannel,
}

/// The place of a chunk among the chunks of its message.
#[derive(Debug, Copy, Clone, PartialEq, Eq, Structural)]
pub enum ChunkType {
    /// More chunks follow.
    Intermediate,
    /// The last chunk of the message.
    Final,
    /// The last chunk of a message that the sender gave up.
    FinalError,
}

/// The header of a chunk.
#[derive(Debug, Copy, Clone, PartialEq, Eq, Structural)]
pub struct ChunkHeader {
    /// The kind of message that the chunk belongs to.
    pub message_type: ChunkMessageType,
    /// The place of the chunk in its message.
    pub is_final: ChunkType,
    /// Size of the chunk in bytes, header included.
    pub message_size: u32,
    /// The secure channel that the chunk travels on.
    pub secure_channel_id: u32,
    /// Whether the bytes of the header named a kind of message and a place.
    pub is_valid: bool,
}

impl View for ChunkHeader {
    type V = ChunkHeader;

    open spec fn view(&self) -> ChunkHeader {
        *self
    }
}

/// The three letters that name a kind of message.
pub open spec fn chunk_message_tag(message_type: ChunkMessageType) -> Seq<u8> {
    match message_type {
        ChunkMessageType::Message => seq![0x4du8, 0x53u8, 0x47u8],
        ChunkMessageType::OpenSecureChannel => seq![0x4fu8, 0x50u8, 0x4eu8],
        ChunkMessageType::CloseSecureChannel => seq![0x43u8, 0x4cu8, 0x4fu8],
    }
}

/// The letter that names the place of a chunk: `C`, `F` or `A`.
pub open spec fn chunk_type_tag(chunk_type: ChunkType) -> u8 {
    match chunk_type {
        ChunkType::Intermediate => 0x43,
        ChunkType::Final => 0x46,
        ChunkType::FinalError => 0x41,
    }
}

/// The kind of message that three letters name, if they name one.
pub open spec fn chunk_message_type_of(tag: Seq<u8>) -> Option<ChunkMessageType> {
    if tag == chunk_message_tag(ChunkMessageType::Message) {
        Some(ChunkMessageType::Message)
    } else if tag == chunk_message_tag(ChunkMessageType::OpenSecureChannel) {
        Some(ChunkMessageType::OpenSecureChannel)
    } else if tag == chunk_message_tag(ChunkMessageType::CloseSecureChannel) {
        Some(ChunkMessageType::CloseSecureChannel)
    } else {
        None
    }
}

/// The place that a letter names, if it names one.
pub open spec fn chunk_type_of(tag: u8) -> Option<ChunkType> {
    if tag == 0x43 {
        Some(ChunkType::Intermediate)
    } else if tag == 0x46 {
        Some(ChunkType::Final)
    } else if tag == 0x41 {
        Some(ChunkType::FinalError)
    } else {
        None
    }
}

/// Wire form of a chunk header: the letters of the kind and of the place,
/// the size and the secure channel.
pub open spec fn chunk_header_encoding(v: ChunkHeader) -> Seq<u8> {
    chunk_message_tag(v.message_type) + seq![chunk_type_tag(v.is_final)] + u32_encoding(
        v.message_size,
    ) + u32_encoding(v.secure_channel_id)
}

/// The header that kind, place, size and channel make. Where the kind or the
/// place is not named, the header is not valid and says `Message` and `Final`
/// in their place.
pub open spec fn chunk_header_of(
    message_type: Option<ChunkMessageType>,
    chunk_type: Option<ChunkType>,
    message_size: u32,
    secure_channel_id: u32,
) -> ChunkHeader {
    ChunkHeader {
        message_type: match message_type {
            Some(t) => t,
            None => ChunkMessageType::Message,
        },
        is_final: match chunk_type {
            Some(t) => t,
            None => ChunkType::Final,
        },
        message_size,
        secure_channel_id,
        is_valid: message_type is Some && chunk_type is Some,
    }
}

/// A chunk header off the front of `s`.
#[verifier::opaque]
pub open spec fn chunk_header_decoding(s: Seq<u8>) -> Result<(ChunkHeader, Seq<u8>), StatusCode> {
    if s.len() < 4 {
        Err(StatusCode::BadDecodingError)
    } else {
        match u32_decoding(s.skip(4)) {
            Err(e) => Err(e),
            Ok((message_size, s1)) => match u32_decoding(s1) {
                Err(e) => Err(e),
                Ok((secure_channel_id, rest)) => Ok(
                    (
                        chunk_header_of(
                            chunk_message_type_of(s.take(3)),
                            chunk_type_of(s[3]),
                            message_size,
                            secure_channel_id,
                        ),
                        rest,
                    ),
                ),
            },
        }
    }
}

impl ChunkHeader {
    /// The kind of message that three letters name.
    fn message_type_of(tag: &[u8]) -> (r: Option<ChunkMessageType>)
        requires
            tag@.len() == 3,
        ensures
            r == chunk_message_type_of(tag@),
    {
        if tag[0] == 0x4d && tag[1] == 0x53 && tag[2] == 0x47 {
            assert(tag@ =~= chunk_message_tag(ChunkMessageType::Message));
            Some(ChunkMessageType::Message)
        } else if tag[0] == 0x4f && tag[1] == 0x50 && tag[2] == 0x4e {
            assert(tag@ =~= chunk_message_tag(ChunkMessageType::OpenSecureChannel));
            Some(ChunkMessageType::OpenSecureChannel)
        } else if tag[0] == 0x43 && tag[1] == 0x4c && tag[2] == 0x4f {
            assert(tag@ =~= chunk_message_tag(ChunkMessageType::CloseSecureChannel));
            Some(ChunkMessageType::CloseSecureChannel)
        } else {
            None
        }
    }

    /// The place that a letter names.
    fn chunk_type_of(tag: u8) -> (r: Option<ChunkType>)
        ensures
            r == chunk_type_of(tag),
    {
        if tag == 0x43 {
            Some(ChunkType::Intermediate)
        } else if tag == 0x46 {
            Some(ChunkType::Final)
        } else if tag == 0x41 {
            Some(ChunkType::FinalError)
        } else {
            None
        }
    }
}

impl BinaryEncoder for ChunkHeader {
    open spec fn encoding(v: ChunkHeader) -> Seq<u8> {
        chunk_header_encoding(v)
    }

    /// A header that is not valid has no wire form.
    open spec fn encodable(v: ChunkHeader) -> bool {
        v.is_valid
    }

    open spec fn within(v: ChunkHeader, limits: DecodingLimits) -> bool {
        true
    }

    open spec fn decoding(s: Seq<u8>, limits: DecodingLimits) -> Result<
        (ChunkHeader, Seq<u8>),
        StatusCode,
    > {
        chunk_header_decoding(s)
    }

    proof fn lemma_round_trip(v: ChunkHeader, rest: Seq<u8>, limits: DecodingLimits) {
        reveal(chunk_header_decoding);
        let tag = chunk_message_tag(v.message_type);
        let place = seq![chunk_type_tag(v.is_final)];
        let size = u32_encoding(v.message_size);
        let channel = u32_encoding(v.secure_channel_id);
        let s = Self::encoding(v) + rest;
        lemma_concat_assoc(tag + place + size, channel, rest);
        lemma_concat_assoc(tag + place, size, channel + rest);
        lemma_u32_round_trip(v.message_size, channel + rest);
        lemma_u32_round_trip(v.secure_channel_id, rest);
        assert(s.take(3) =~= tag);
        assert(s[3] == chunk_type_tag(v.is_final));
        assert(s.skip(4) =~= size + (channel + rest));
        assert(chunk_message_tag(ChunkMessageType::Message)[0] != chunk_message_tag(
            ChunkMessageType::OpenSecureChannel,
        )[0]);
        assert(chunk_message_tag(ChunkMessageType::Message)[0] != chunk_message_tag(
            ChunkMessageType::CloseSecureChannel,
        )[0]);
        assert(chunk_message_tag(ChunkMessageType::OpenSecureChannel)[0] != chunk_message_tag(
            ChunkMessageType::CloseSecureChannel,
        )[0]);
    }

    fn byte_len(&self) -> (r: usize) {
        proof {
            lemma_u32_round_trip(self.message_size, Seq::empty());
            lemma_u32_round_trip(self.secure_channel_id, Seq::empty());
        }
        CHUNK_HEADER_SIZE
    }

    fn encode(&self, stream: &mut Vec<u8>) -> (r: EncodingResult<usize>) {
        let ghost o = stream@;
        proof {
            lemma_u32_round_trip(self.message_size, Seq::empty());
            lemma_u32_round_trip(self.secure_channel_id, Seq::empty());
            lemma_extends_refl(o);
        }
        if !self.is_valid {
            return Err(StatusCode::BadEncodingLimitsExceeded);
        }
        let place: u8 = match self.is_final {
            ChunkType::Intermediate => 0x43,
            ChunkType::Final => 0x46,
            ChunkType::FinalError => 0x41,
        };
        let tag: [u8; 4] = match self.message_type {
            ChunkMessageType::Message => [0x4d, 0x53, 0x47, place],
            ChunkMessageType::OpenSecureChannel => [0x4f, 0x50, 0x4e, place],
            ChunkMessageType::CloseSecureChannel => [0x43, 0x4c, 0x4f, place],
        };
        assert(tag@ =~= chunk_message_tag(self.message_type) + seq![chunk_type_tag(self.is_final)]);
        write_bytes(stream, tag.as_slice())?;
        write_u32(stream, self.message_size)?;
        write_u32(stream, self.secure_channel_id)?;
        proof {
            lemma_concat_assoc(o, tag@, u32_encoding(self.message_size));
            lemma_concat_assoc(
                o,
                tag@ + u32_encoding(self.message_size),
                u32_encoding(self.secure_channel_id),
            );
        }
        Ok(CHUNK_HEADER_SIZE)
    }

    fn decode(stream: &mut ReadStream, limits: &DecodingLimits) -> (r: EncodingResult<Self>) {
        proof {
            reveal(chunk_header_decoding);
        }
        let tag = stream.read_bytes(4)?;
        let message_size = read_u32(stream)?;
        let secure_channel_id = read_u32(stream)?;
        let kind = ChunkHeader::message_type_of(vstd::slice::slice_subrange(tag, 0, 3));
        let place = ChunkHeader::chunk_type_of(tag[3]);
        assert(tag@.subrange(0, 3) =~= old(stream)@.take(3));
        Ok(
            ChunkHeader {
                message_type: match kind {
                    Some(t) => t,
                    None => ChunkMessageType::Message,
                },
                is_final: match place {
                    Some(t) => t,
                    None => ChunkType::Final,
                },
                message_size,
                secure_channel_id,
                is_valid: kind.is_some() && place.is_some(),
            },
        )
    }
}

/// A chunk: a header and the bytes behind it.
#[derive(Debug, Clone, PartialEq, Eq)]
pub struct Chunk {
    pub chunk_header: ChunkHeader,
    pub chunk_body: Vec<u8>,
}

/// The value of a `Chunk`.
pub struct ChunkView {
    pub chunk_header: ChunkHeader,
    pub chunk_body: Seq<u8>,
}

impl View for Chunk {
    type V = ChunkView;

    open spec fn view(&self) -> ChunkView {
        ChunkView { chunk_header: self.chunk_header, chunk_body: self.chunk_body@ }
    }
}

/// The header is valid and the size it declares is that of the header and
/// the body together.
pub open spec fn is_consistent(c: ChunkView) -> bool {
    c.chunk_header.is_valid && c.chunk_header.message_size == CHUNK_HEADER_SIZE
        + c.chunk_body.len()
}

/// Wire form of a chunk: the header, then the body.
pub open spec fn chunk_encoding(c: ChunkView) -> Seq<u8> {
    chunk_header_encoding(c.chunk_header) + c.chunk_body
}

/// A chunk off the front of `s`. A header that names no kind of message or
/// no place is refused; a declared size that is smaller than a header, or
/// larger than what `s` holds, is malformed.
#[verifier::opaque]
pub open spec fn chunk_decoding(s: Seq<u8>) -> Result<(ChunkView, Seq<u8>), StatusCode> {
    match chunk_header_decoding(s) {
        Err(e) => Err(StatusCode::BadDecodingError),
        Ok((chunk_header, rest)) => if !chunk_header.is_valid {
            Err(StatusCode::BadTcpMessageTypeInvalid)
        } else if chunk_header.message_size < CHUNK_HEADER_SIZE {
            Err(StatusCode::BadDecodingError)
        } else if rest.len() < chunk_header.message_size - CHUNK_HEADER_SIZE {
            Err(StatusCode::BadDecodingError)
        } else {
            let n = chunk_header.message_size - CHUNK_HEADER_SIZE;
            Ok((ChunkView { chunk_header, chunk_body: rest.take(n) }, rest.skip(n)))
        },
    }
}

/// A consistent chunk is read back from its wire form.
pub proof fn lemma_chunk_round_trip(c: ChunkView, rest: Seq<u8>)
    requires
        is_consistent(c),
    ensures
        chunk_decoding(chunk_encoding(c) + rest) == Ok::<(ChunkView, Seq<u8>), StatusCode>(
            (c, rest),
        ),
{
    reveal(chunk_decoding);
    let limits = DecodingLimits {
        max_string_length: 0,
        max_byte_string_length: 0,
        max_array_length: 0,
    };
    let body = c.chunk_body + rest;
    lemma_concat_assoc(chunk_header_encoding(c.chunk_header), c.chunk_body, rest);
    ChunkHeader::lemma_round_trip(c.chunk_header, body, limits);
    assert(body.take(c.chunk_body.len() as int) =~= c.chunk_body);
    assert(body.skip(c.chunk_body.len() as int) =~= rest);
}

impl Chunk {
    /// Reads a chunk from the stream.
    pub fn decode(in_stream: &mut ReadStream) -> (r: Result<Chunk, StatusCode>)
        ensures
            match chunk_decoding(old(in_stream)@) {
                Ok((c, rest)) => r is Ok && r.unwrap()@ == c && final(in_stream)@ == rest,
                Err(e) => r matches Err(x) && x == e,
            },
    {
        proof {
            reveal(chunk_decoding);
        }
        let limits = DecodingLimits::default();
        let chunk_header = match ChunkHeader::decode(in_stream, &limits) {
            Ok(header) => header,
            Err(_) => {
                return Err(StatusCode::BadDecodingError);
            },
        };
        if !chunk_header.is_valid {
            return Err(StatusCode::BadTcpMessageTypeInvalid);
        }
        if (chunk_header.message_size as usize) < CHUNK_HEADER_SIZE {
            return Err(StatusCode::BadDecodingError);
        }
        let body_len = chunk_header.message_size as usize - CHUNK_HEADER_SIZE;
        let body = in_stream.read_bytes(body_len)?;
        Ok(Chunk { chunk_header, chunk_body: vstd::slice::slice_to_vec(body) })
    }

    /// Appends the wire form of the chunk to the stream. A chunk that is not
    /// consistent is refused, and nothing is written.
    pub fn encode(&self, stream: &mut Vec<u8>) -> (r: Result<usize, StatusCode>)
        ensures
            is_consistent(self@) ==> (r matches Ok(n) && n == chunk_encoding(self@).len())
                && final(stream)@ == old(stream)@ + chunk_encoding(self@),
            !is_consistent(self@) ==> r == Err::<usize, StatusCode>(StatusCode::BadEncodingError)
                && final(stream)@ == old(stream)@,
    {
        if !self.chunk_header.is_valid || self.chunk_body.len() > 0xffff_ffff - CHUNK_HEADER_SIZE
            || self.chunk_header.message_size as usize != CHUNK_HEADER_SIZE
            + self.chunk_body.len() {
            return Err(StatusCode::BadEncodingError);
        }
        let start = stream.len();
        self.chunk_header.encode(stream)?;
        write_bytes(stream, self.chunk_body.as_slice())?;
        proof {
            lemma_concat_assoc(
                old(stream)@,
                chunk_header_encoding(self.chunk_header),
                self.chunk_body@,
            );
        }
        Ok(stream.len() - start)
    }
}

/// The security header of the chunks that open a secure channel.
#[derive(Clone, Debug, PartialEq, Eq)]
pub struct AsymmetricSecurityHeader {
    /// URI of the security policy under which the message is protected.
    pub security_policy_uri: UAString,
    /// The certificate of the sender.
    pub sender_certificate: ByteString,
    /// The thumbprint of the certificate of the receiver.
    pub receiver_certificate_thumbprint: ByteString,
}

/// The value of a `AsymmetricSecurityHeader`.
pub struct AsymmetricSecurityHeaderView {
    pub security_policy_uri: Option<Seq<char>>,
    pub sender_certificate: Option<Seq<u8>>,
    pub receiver_certificate_thumbprint: Option<Seq<u8>>,
}

impl View for AsymmetricSecurityHeader {
    type V = AsymmetricSecurityHeaderView;

    open spec fn view(&self) -> AsymmetricSecurityHeaderView {
        AsymmetricSecurityHeaderView {
            security_policy_uri: self.security_policy_uri@,
            sender_certificate: self.sender_certificate@,
            receiver_certificate_thumbprint: self.receiver_certificate_thumbprint@,
        }
    }
}
/// Wire form of a `AsymmetricSecurityHeader`: its fields in the order of their declaration.
pub open spec fn asymmetric_security_header_encoding(v: AsymmetricSecurityHeaderView) -> Seq<u8> {
    UAString::encoding(v.security_policy_uri) + ByteString::encoding(v.sender_certificate)
        + ByteString::encoding(v.receiver_certificate_thumbprint)
}

/// A `AsymmetricSecurityHeader` off the front of `s`: its fields, one behind the other.
#[verifier::opaque]
pub open spec fn asymmetric_security_header_decoding(s: Seq<u8>, limits: DecodingLimits) -> Result<
    (AsymmetricSecurityHeaderView, Seq<u8>),
    StatusCode,
> {
    match UAString::decoding(s, limits) {
        Err(e) => Err(e),
        Ok((security_policy_uri, s)) =>
            match ByteString::decoding(s, limits) {
                Err(e) => Err(e),
                Ok((sender_certificate, s)) =>
                    match ByteString::decoding(s, limits) {
                        Err(e) => Err(e),
                        Ok((receiver_certificate_thumbprint, s)) =>
                            Ok((
                                AsymmetricSecurityHeaderView {
                                    security_policy_uri,
                                    sender_certificate,
                                    receiver_certificate_thumbprint,
                                },
                                s,
                            )),
                    },
            },
    }
}

impl BinaryEncoder for AsymmetricSecurityHeader {
    open spec fn encoding(v: AsymmetricSecurityHeaderView) -> Seq<u8> {
        asymmetric_security_header_encoding(v)
    }

    open spec fn encodable(v: AsymmetricSecurityHeaderView) -> bool {
        &&& UAString::encodable(v.security_policy_uri)
        &&& ByteString::encodable(v.sender_certificate)
        &&& ByteString::encodable(v.receiver_certificate_thumbprint)
    }

    open spec fn within(v: AsymmetricSecurityHeaderView, limits: DecodingLimits) -> bool {
        &&& UAString::within(v.security_policy_uri, limits)
        &&& ByteString::within(v.sender_certificate, limits)
        &&& ByteString::within(v.receiver_certificate_thumbprint, limits)
    }

    open spec fn decoding(s: Seq<u8>, limits: DecodingLimits) -> Result<
        (AsymmetricSecurityHeaderView, Seq<u8>),
        StatusCode,
    > {
        asymmetric_security_header_decoding(s, limits)
    }

    proof fn lemma_round_trip(v: AsymmetricSecurityHeaderView, rest: Seq<u8>, limits: DecodingLimits) {
        reveal(asymmetric_security_header_decoding);
        let p0 = UAString::encoding(v.security_policy_uri);
        let p1 = ByteString::encoding(v.sender_certificate);
        let p2 = ByteString::encoding(v.receiver_certificate_thumbprint);
        let r2 = p2 + rest;
        let r1 = p1 + r2;
        lemma_concat_assoc(p0 + p1, p2, rest);
        lemma_concat_assoc(p0, p1, r2);
        UAString::lemma_round_trip(v.security_policy_uri, r1, limits);
        ByteString::lemma_round_trip(v.sender_certificate, r2, limits);
        ByteString::lemma_round_trip(v.receiver_certificate_thumbprint, rest, limits);
    }

    fn byte_len(&self) -> (r: usize) {
        let ghost v = self@;
        let ghost e0 = UAString::encoding(v.security_policy_uri);
        let ghost e1 = e0 + ByteString::encoding(v.sender_certificate);
        let ghost e2 = e1 + ByteString::encoding(v.receiver_certificate_thumbprint);
        let mut size: usize = self.security_policy_uri.byte_len();
        size = add_part_len(
            size,
            self.sender_certificate.byte_len(),
            Ghost(e0),
            Ghost(ByteString::encoding(v.sender_certificate)),
        );
        size = add_part_len(
            size,
            self.receiver_certificate_thumbprint.byte_len(),
            Ghost(e1),
            Ghost(ByteString::encoding(v.receiver_certificate_thumbprint)),
        );
        size
    }

    fn encode(&self, stream: &mut Vec<u8>) -> (r: EncodingResult<usize>) {
        let start = stream.len();
        let ghost o = stream@;
        let ghost v = self@;
        proof {
            lemma_extends_refl(o);
        }
        write_part(stream, &self.security_policy_uri, Ghost(o))?;
        write_part(stream, &self.sender_certificate, Ghost(o))?;
        write_part(stream, &self.receiver_certificate_thumbprint, Ghost(o))?;
        proof {
            let p0 = UAString::encoding(v.security_policy_uri);
            let p1 = ByteString::encoding(v.sender_certificate);
            let p2 = ByteString::encoding(v.receiver_certificate_thumbprint);
            lemma_concat_assoc(o, p0, p1);
            lemma_concat_assoc(o, p0 + p1, p2);
        }
        Ok(stream.len() - start)
    }

    fn decode(stream: &mut ReadStream, limits: &DecodingLimits) -> (r: EncodingResult<Self>) {
        proof {
            reveal(asymmetric_security_header_decoding);
        }
        let security_policy_uri = UAString::decode(stream, limits)?;
        let sender_certificate = ByteString::decode(stream, limits)?;
        let receiver_certificate_thumbprint = ByteString::decode(stream, limits)?;
        Ok(
            AsymmetricSecurityHeader {
                security_policy_uri,
                sender_certificate,
                receiver_certificate_thumbprint,
            },
        )
    }
}

/// The header that numbers a chunk and names the request it belongs to.
#[derive(Clone, Copy, Debug, PartialEq, Eq)]
pub struct SequenceHeader {
    /// The number of the chunk among the chunks that the sender has sent.
    pub sequence_number: u32,
    /// The number that the client gave the request.
    pub request_id: u32,
}

/// The value of a `SequenceHeader`.
pub struct SequenceHeaderView {
    pub sequence_number: u32,
    pub request_id: u32,
}

impl View for SequenceHeader {
    type V = SequenceHeaderView;

    open spec fn view(&self) -> SequenceHeaderView {
        SequenceHeaderView {
            sequence_number: self.sequence_number,
            request_id: self.request_id,
        }
    }
}
/// Wire form of a `SequenceHeader`: its fields in the order of their declaration.
pub open spec fn sequence_header_encoding(v: SequenceHeaderView) -> Seq<u8> {
    u32::encoding(v.sequence_number) + u32::encoding(v.request_id)
}

/// A `SequenceHeader` off the front of `s`: its fields, one behind the other.
#[verifier::opaque]
pub open spec fn sequence_header_decoding(s: Seq<u8>, limits: DecodingLimits) -> Result<
    (SequenceHeaderView, Seq<u8>),
    StatusCode,
> {
    match u32::decoding(s, limits) {
        Err(e) => Err(e),
        Ok((sequence_number, s)) =>
            match u32::decoding(s, limits) {
                Err(e) => Err(e),
                Ok((request_id, s)) =>
                    Ok((SequenceHeaderView { sequence_number, request_id }, s)),
            },
    }
}

impl BinaryEncoder for SequenceHeader {
    open spec fn encoding(v: SequenceHeaderView) -> Seq<u8> {
        sequence_header_encoding(v)
    }

    open spec fn encodable(v: SequenceHeaderView) -> bool {
        true
    }

    open spec fn within(v: SequenceHeaderView, limits: DecodingLimits) -> bool {
        true
    }

    open spec fn decoding(s: Seq<u8>, limits: DecodingLimits) -> Result<
        (SequenceHeaderView, Seq<u8>),
        StatusCode,
    > {
        sequence_header_decoding(s, limits)
    }

    proof fn lemma_round_trip(v: SequenceHeaderView, rest: Seq<u8>, limits: DecodingLimits) {
        reveal(sequence_header_decoding);
        let p0 = u32::encoding(v.sequence_number);
        let p1 = u32::encoding(v.request_id);
        let r1 = p1 + rest;
        lemma_concat_assoc(p0, p1, rest);
        u32::lemma_round_trip(v.sequence_number, r1, limits);
        u32::lemma_round_trip(v.request_id, rest, limits);
    }

    fn byte_len(&self) -> (r: usize) {
        let ghost v = self@;
        let ghost e0 = u32::encoding(v.sequence_number);
        let ghost e1 = e0 + u32::encoding(v.request_id);
        let mut size: usize = self.sequence_number.byte_len();
        size = add_part_len(
            size,
            self.request_id.byte_len(),
            Ghost(e0),
            Ghost(u32::encoding(v.request_id)),
        );
        size
    }

    fn encode(&self, stream: &mut Vec<u8>) -> (r: EncodingResult<usize>) {
        let start = stream.len();
        let ghost o = stream@;
        let ghost v = self@;
        proof {
            lemma_extends_refl(o);
        }
        write_part(stream, &self.sequence_number, Ghost(o))?;
        write_part(stream, &self.request_id, Ghost(o))?;
        proof {
            let p0 = u32::encoding(v.sequence_number);
            let p1 = u32::encoding(v.request_id);
            lemma_concat_assoc(o, p0, p1);
        }
        Ok(stream.len() - start)
    }

    fn decode(stream: &mut ReadStream, limits: &DecodingLimits) -> (r: EncodingResult<Self>) {
        proof {
            reveal(sequence_header_decoding);
        }
        let sequence_number = u32::decode(stream, limits)?;
        let request_id = u32::decode(stream, limits)?;
        Ok(SequenceHeader { sequence_number, request_id })
    }
}

/// What is wrong with a chunk as a part of a message whose first chunk has
/// the header `first`: a header that is not valid, a declared size that is
/// not that of the chunk, another kind of message or another secure channel
/// than the first chunk has, or a place that is not the chunk's.
pub open spec fn chunk_fault(first: ChunkHeader, c: ChunkView, is_last: bool) -> Option<
    StatusCode,
> {
    if !c.chunk_header.is_valid {
        Some(StatusCode::BadTcpMessageTypeInvalid)
    } else if c.chunk_header.message_size != CHUNK_HEADER_SIZE + c.chunk_body.len() {
        Some(StatusCode::BadDecodingError)
    } else if c.chunk_header.message_type != first.message_type {
        Some(StatusCode::BadTcpMessageTypeInvalid)
    } else if c.chunk_header.secure_channel_id != first.secure_channel_id {
        Some(StatusCode::BadSecureChannelIdInvalid)
    } else if is_last && c.chunk_header.is_final != ChunkType::Final {
        Some(StatusCode::BadDecodingError)
    } else if !is_last && c.chunk_header.is_final != ChunkType::Intermediate {
        Some(StatusCode::BadDecodingError)
    } else {
        None
    }
}

/// The fault of the first chunk from position `i` on that has one.
pub open spec fn first_fault(chunks: Seq<ChunkView>, i: int) -> Option<StatusCode>
    decreases chunks.len() - i,
{
    if i < 0 || i >= chunks.len() {
        None
    } else {
        match chunk_fault(chunks[0].chunk_header, chunks[i], i == chunks.len() - 1) {
            Some(e) => Some(e),
            None => first_fault(chunks, i + 1),
        }
    }
}

/// The bodies of the chunks, one behind the other.
pub open spec fn bodies(chunks: Seq<ChunkView>) -> Seq<u8>
    decreases chunks.len(),
{
    if chunks.len() == 0 {
        Seq::empty()
    } else {
        bodies(chunks.drop_last()) + chunks.last().chunk_body
    }
}

/// The body of the message that the chunks carry. No chunks are no message;
/// more than `max_chunk_count` chunks are too large a message; and the first
/// chunk with a fault decides what is wrong with the others.
pub open spec fn reassembled(chunks: Seq<ChunkView>, max_chunk_count: usize) -> Result<
    Seq<u8>,
    StatusCode,
> {
    if chunks.len() == 0 {
        Err(StatusCode::BadUnexpectedError)
    } else if chunks.len() > max_chunk_count {
        Err(StatusCode::BadTcpMessageTooLarge)
    } else {
        match first_fault(chunks, 0) {
            Some(e) => Err(e),
            None => Ok(bodies(chunks)),
        }
    }
}

/// The request to open a secure channel that the body of a message holds:
/// behind the security header and the sequence header, the node id of the
/// encoding of the request and the request itself. Another node id is not
/// what was expected.
pub open spec fn open_secure_channel_request_in(body: Seq<u8>, limits: DecodingLimits) -> Result<
    OpenSecureChannelRequestView,
    StatusCode,
> {
    match AsymmetricSecurityHeader::decoding(body, limits) {
        Err(e) => Err(e),
        Ok((_, s)) => match SequenceHeader::decoding(s, limits) {
            Err(e) => Err(e),
            Ok((_, s)) => match NodeId::decoding(s, limits) {
                Err(e) => Err(e),
                Ok((node_id, s)) => if node_id != numeric_node_id(
                    0,
                    ObjectId::OpenSecureChannelRequest_Encoding_DefaultBinary.spec_value(),
                ) {
                    Err(StatusCode::BadUnexpectedError)
                } else {
                    match OpenSecureChannelRequest::decoding(s, limits) {
                        Err(e) => Err(e),
                        Ok((request, _)) => Ok(request),
                    }
                },
            },
        },
    }
}

/// The request to open a secure channel that the chunks carry. Chunks of
/// another kind of message are not what was expected.
pub open spec fn open_secure_channel_request_of(
    chunks: Seq<ChunkView>,
    max_chunk_count: usize,
    limits: DecodingLimits,
) -> Result<OpenSecureChannelRequestView, StatusCode> {
    match reassembled(chunks, max_chunk_count) {
        Err(e) => Err(e),
        Ok(body) => if chunks[0].chunk_header.message_type
            != ChunkMessageType::OpenSecureChannel {
            Err(StatusCode::BadUnexpectedError)
        } else {
            open_secure_channel_request_in(body, limits)
        },
    }
}

/// Puts the chunks of a message together and reads the message.
#[derive(Debug, Clone, Copy, PartialEq, Eq)]
pub struct Chunker {
    /// The largest number of chunks that a message may come in.
    pub max_chunk_count: usize,
    /// The sizes beyond which what the message holds is refused.
    pub decoding_limits: DecodingLimits,
}

impl Chunker {
    /// A chunker that takes messages of one chunk and applies the default
    /// limits.
    pub fn new() -> (r: Chunker)
        ensures
            r.max_chunk_count == MAX_CHUNK_COUNT,
            r.decoding_limits.max_string_length == crate::constants::MAX_STRING_LENGTH,
            r.decoding_limits.max_byte_string_length == crate::constants::MAX_BYTE_STRING_LENGTH,
            r.decoding_limits.max_array_length == crate::constants::MAX_ARRAY_LENGTH,
    {
        Chunker { max_chunk_count: MAX_CHUNK_COUNT, decoding_limits: DecodingLimits::default() }
    }

    /// Puts the bodies of the chunks of one message together.
    pub fn reassemble(&self, chunks: &Vec<&Chunk>) -> (r: Result<Vec<u8>, StatusCode>)
        ensures
            match reassembled(seq_view(chunks@), self.max_chunk_count) {
                Ok(body) => r is Ok && r.unwrap()@ == body,
                Err(e) => r matches Err(x) && x == e,
            },
    {
        let ghost views = seq_view(chunks@);
        let n = chunks.len();
        if n == 0 {
            return Err(StatusCode::BadUnexpectedError);
        }
        if n > self.max_chunk_count {
            return Err(StatusCode::BadTcpMessageTooLarge);
        }
        let first = chunks[0].chunk_header;
        let mut body: Vec<u8> = Vec::new();
        let mut i: usize = 0;
        assert(views.take(0) =~= Seq::<ChunkView>::empty());
        while i < n
            invariant
                i <= n,
                0 < n <= self.max_chunk_count,
                n == chunks.len(),
                views == seq_view(chunks@),
                first == views[0].chunk_header,
                first_fault(views, 0) == first_fault(views, i as int),
                body@ == bodies(views.take(i as int)),
            decreases n - i,
        {
            let chunk = chunks[i];
            assert(chunk@ == views[i as int]);
            let header = chunk.chunk_header;
            let is_last = i == n - 1;
            if !header.is_valid {
                return Err(StatusCode::BadTcpMessageTypeInvalid);
            }
            if chunk.chunk_body.len() > 0xffff_ffff - CHUNK_HEADER_SIZE || header.message_size as usize
                != CHUNK_HEADER_SIZE + chunk.chunk_body.len() {
                return Err(StatusCode::BadDecodingError);
            }
            if !Chunker::same_message_type(header.message_type, first.message_type) {
                return Err(StatusCode::BadTcpMessageTypeInvalid);
            }
            if header.secure_channel_id != first.secure_channel_id {
                return Err(StatusCode::BadSecureChannelIdInvalid);
            }
            let place_fits = match header.is_final {
                ChunkType::Final => is_last,
                ChunkType::Intermediate => !is_last,
                ChunkType::FinalError => false,
            };
            if !place_fits {
                return Err(StatusCode::BadDecodingError);
            }
            write_bytes(&mut body, chunk.chunk_body.as_slice())?;
            proof {
                assert(views.take(i + 1).drop_last() =~= views.take(i as int));
                assert(views.take(i + 1).last() == views[i as int]);
            }
            i += 1;
        }
        assert(views.take(n as int) =~= views);
        Ok(body)
    }

    fn same_message_type(a: ChunkMessageType, b: ChunkMessageType) -> (r: bool)
        ensures
            r == (a == b),
    {
        match (a, b) {
            (ChunkMessageType::Message, ChunkMessageType::Message) => true,
            (ChunkMessageType::OpenSecureChannel, ChunkMessageType::OpenSecureChannel) => true,
            (ChunkMessageType::CloseSecureChannel, ChunkMessageType::CloseSecureChannel) => true,
            _ => false,
        }
    }

    /// Reads the request to open a secure channel that the body of a message
    /// holds.
    pub fn decode_open_secure_channel_body(&self, body: &[u8]) -> (r: Result<
        OpenSecureChannelRequest,
        StatusCode,
    >)
        ensures
            match open_secure_channel_request_in(body@, self.decoding_limits) {
                Ok(request) => r is Ok && r.unwrap()@ == request,
                Err(e) => r matches Err(x) && x == e,
            },
    {
        let mut stream = ReadStream::new(body);
        let _ = AsymmetricSecurityHeader::decode(&mut stream, &self.decoding_limits)?;
        let _ = SequenceHeader::decode(&mut stream, &self.decoding_limits)?;
        let node_id = NodeId::decode(&mut stream, &self.decoding_limits)?;
        match ObjectId::from_node_id(&node_id) {
            Some(ObjectId::OpenSecureChannelRequest_Encoding_DefaultBinary) => {},
            _ => {
                return Err(StatusCode::BadUnexpectedError);
            },
        }
        OpenSecureChannelRequest::decode(&mut stream, &self.decoding_limits)
    }

    /// Reads the request to open a secure channel that the chunks carry.
    pub fn decode_open_secure_channel_request(&self, chunks: &Vec<&Chunk>) -> (r: Result<
        OpenSecureChannelRequest,
        StatusCode,
    >)
        ensures
            match open_secure_channel_request_of(
                seq_view(chunks@),
                self.max_chunk_count,
                self.decoding_limits,
            ) {
                Ok(request) => r is Ok && r.unwrap()@ == request,
                Err(e) => r matches Err(x) && x == e,
            },
    {
        let body = self.reassemble(chunks)?;
        match chunks[0].chunk_header.message_type {
            ChunkMessageType::OpenSecureChannel => {},
            _ => {
                return Err(StatusCode::BadUnexpectedError);
            },
        }
        self.decode_open_secure_channel_body(body.as_slice())
    }
}

} // verus!
