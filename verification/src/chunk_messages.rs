//! Messages in chunks: how the chunker frames a message and splits it into
//! chunks, and how it reads a message from the chunks that carry it.

use vstd::prelude::*;
use crate::chunk::{
    Chunk, ChunkHeader, ChunkMessageType, ChunkType, ChunkView, Chunker, SequenceHeader,
    SequenceHeaderView, CHUNK_HEADER_SIZE, bodies, chunk_fault, first_fault, reassembled,
};
use crate::encoding::{
    BinaryEncoder, DecodingLimits, EncodingResult, ReadStream, lemma_concat_assoc,
    lemma_extends_refl, seq_view, write_part,
};
use crate::node_id::{NodeId, NodeIdView, numeric_node_id};
use crate::node_ids::ObjectId;
use crate::status_codes::StatusCode;
use crate::supported_message::{
    SupportedMessage, SupportedMessageView, lemma_message_round_trip, message_decoding,
};

verus! {

/// The security header of the chunks of a message on an open secure channel.
#[derive(Clone, Copy, Debug, PartialEq, Eq)]
pub struct SymmetricSecurityHeader {
    /// The security token under which the chunk is protected.
    pub token_id: u32,
}

/// The value of a `SymmetricSecurityHeader`.
pub struct SymmetricSecurityHeaderView {
    pub token_id: u32,
}

impl View for SymmetricSecurityHeader {
    type V = SymmetricSecurityHeaderView;

    open spec fn view(&self) -> SymmetricSecurityHeaderView {
        SymmetricSecurityHeaderView {
            token_id: self.token_id,
        }
    }
}
/// Wire form of a `SymmetricSecurityHeader`: its fields in the order of their declaration.
pub open spec fn symmetric_security_header_encoding(v: SymmetricSecurityHeaderView) -> Seq<u8> {
    u32::encoding(v.token_id)
}

/// A `SymmetricSecurityHeader` off the front of `s`: its fields, one behind the other.
#[verifier::opaque]
pub open spec fn symmetric_security_header_decoding(s: Seq<u8>, limits: DecodingLimits) -> Result<
    (SymmetricSecurityHeaderView, Seq<u8>),
    StatusCode,
> {
    match u32::decoding(s, limits) {
        Err(e) => Err(e),
        Ok((token_id, s)) =>
            Ok((SymmetricSecurityHeaderView { token_id }, s)),
    }
}

impl BinaryEncoder for SymmetricSecurityHeader {
    open spec fn encoding(v: SymmetricSecurityHeaderView) -> Seq<u8> {
        symmetric_security_header_encoding(v)
    }

    open spec fn encodable(v: SymmetricSecurityHeaderView) -> bool {
        true
    }

    open spec fn within(v: SymmetricSecurityHeaderView, limits: DecodingLimits) -> bool {
        true
    }

    open spec fn decoding(s: Seq<u8>, limits: DecodingLimits) -> Result<
        (SymmetricSecurityHeaderView, Seq<u8>),
        StatusCode,
    > {
        symmetric_security_header_decoding(s, limits)
    }

    proof fn lemma_round_trip(v: SymmetricSecurityHeaderView, rest: Seq<u8>, limits: DecodingLimits) {
        reveal(symmetric_security_header_decoding);
        let p0 = u32::encoding(v.token_id);
        u32::lemma_round_trip(v.token_id, rest, limits);
    }

    fn byte_len(&self) -> (r: usize) {
        self.token_id.byte_len()
    }

    fn encode(&self, stream: &mut Vec<u8>) -> (r: EncodingResult<usize>) {
        let start = stream.len();
        let ghost o = stream@;
        let ghost v = self@;
        proof {
            lemma_extends_refl(o);
        }
        write_part(stream, &self.token_id, Ghost(o))?;
        Ok(stream.len() - start)
    }

    fn decode(stream: &mut ReadStream, limits: &DecodingLimits) -> (r: EncodingResult<Self>) {
        proof {
            reveal(symmetric_security_header_decoding);
        }
        let token_id = u32::decode(stream, limits)?;
        Ok(SymmetricSecurityHeader { token_id })
    }
}

/// The chunk of a message with the given place and body. Its size is that of
/// the header and the body.
pub open spec fn chunk_of(
    message_type: ChunkMessageType,
    is_final: ChunkType,
    secure_channel_id: u32,
    body: Seq<u8>,
) -> ChunkView {
    ChunkView {
        chunk_header: ChunkHeader {
            message_type,
            is_final,
            message_size: (CHUNK_HEADER_SIZE + body.len()) as u32,
            secure_channel_id,
            is_valid: true,
        },
        chunk_body: body,
    }
}

/// The chunks that carry a body when a chunk holds at most `max_body_size`
/// bytes of it: intermediate chunks that are full, and a final chunk with
/// what is left, which may be nothing.
pub open spec fn split_chunks(
    message_type: ChunkMessageType,
    secure_channel_id: u32,
    body: Seq<u8>,
    max_body_size: nat,
) -> Seq<ChunkView>
    decreases body.len(),
{
    if max_body_size == 0 || body.len() <= max_body_size {
        seq![chunk_of(message_type, ChunkType::Final, secure_channel_id, body)]
    } else {
        seq![
            chunk_of(
                message_type,
                ChunkType::Intermediate,
                secure_channel_id,
                body.take(max_body_size as int),
            ),
        ] + split_chunks(
            message_type,
            secure_channel_id,
            body.skip(max_body_size as int),
            max_body_size,
        )
    }
}

/// What splitting a body into chunks of at most `max_chunk_size` bytes,
/// header included, comes to for a chunker that takes `max_chunk_count`
/// chunks: a chunk size that leaves no room for a body is refused, and so is
/// a body that needs more chunks than the chunker takes.
pub open spec fn split_outcome(
    max_chunk_count: usize,
    message_type: ChunkMessageType,
    secure_channel_id: u32,
    body: Seq<u8>,
    max_chunk_size: u32,
) -> Result<Seq<ChunkView>, StatusCode> {
    if max_chunk_size <= CHUNK_HEADER_SIZE {
        Err(StatusCode::BadEncodingLimitsExceeded)
    } else {
        let chunks = split_chunks(
            message_type,
            secure_channel_id,
            body,
            (max_chunk_size - CHUNK_HEADER_SIZE) as nat,
        );
        if chunks.len() > max_chunk_count {
            Err(StatusCode::BadTcpMessageTooLarge)
        } else {
            Ok(chunks)
        }
    }
}

/// The bodies of two runs of chunks are the bodies of the first followed by
/// those of the second.
pub proof fn lemma_bodies_concat(a: Seq<ChunkView>, b: Seq<ChunkView>)
    ensures
        bodies(a + b) == bodies(a) + bodies(b),
    decreases b.len(),
{
    if b.len() == 0 {
        assert(a + b =~= a);
        assert(bodies(a) + bodies(b) =~= bodies(a));
    } else {
        lemma_bodies_concat(a, b.drop_last());
        assert((a + b).drop_last() =~= a + b.drop_last());
        assert((a + b).last() == b.last());
        lemma_concat_assoc(bodies(a), bodies(b.drop_last()), b.last().chunk_body);
    }
}

/// A run of chunks of which none has a fault has no first fault.
pub proof fn lemma_no_fault(chunks: Seq<ChunkView>, i: int)
    requires
        0 <= i,
        forall|k: int|
            i <= k < chunks.len() ==> chunk_fault(
                chunks[0].chunk_header,
                #[trigger] chunks[k],
                k == chunks.len() - 1,
            ) is None,
    ensures
        first_fault(chunks, i) is None,
    decreases chunks.len() - i,
{
    if i < chunks.len() {
        lemma_no_fault(chunks, i + 1);
    }
}

/// What the chunks that a body was split into look like: they are of the
/// given kind and channel, each holds at most `max_body_size` bytes and
/// declares its size, all but the last are intermediate and the last is
/// final, and their bodies together are the body.
pub proof fn lemma_split_chunks(
    message_type: ChunkMessageType,
    secure_channel_id: u32,
    body: Seq<u8>,
    max_body_size: nat,
)
    requires
        0 < max_body_size <= u32::MAX - CHUNK_HEADER_SIZE,
    ensures
        ({
            let chunks = split_chunks(message_type, secure_channel_id, body, max_body_size);
            &&& chunks.len() >= 1
            &&& bodies(chunks) == body
            &&& forall|k: int|
                0 <= k < chunks.len() ==> {
                    &&& (#[trigger] chunks[k]).chunk_header.is_valid
                    &&& chunks[k].chunk_header.message_type == message_type
                    &&& chunks[k].chunk_header.secure_channel_id == secure_channel_id
                    &&& chunks[k].chunk_body.len() <= max_body_size
                    &&& chunks[k].chunk_header.message_size == CHUNK_HEADER_SIZE
                        + chunks[k].chunk_body.len()
                    &&& chunks[k].chunk_header.is_final == (if k == chunks.len() - 1 {
                        ChunkType::Final
                    } else {
                        ChunkType::Intermediate
                    })
                }
        }),
    decreases body.len(),
{
    let chunks = split_chunks(message_type, secure_channel_id, body, max_body_size);
    if body.len() <= max_body_size {
        assert(chunks.drop_last() =~= Seq::<ChunkView>::empty());
        assert(bodies(chunks.drop_last()) =~= Seq::<u8>::empty());
        assert(bodies(chunks) =~= body);
    } else {
        let head = chunk_of(
            message_type,
            ChunkType::Intermediate,
            secure_channel_id,
            body.take(max_body_size as int),
        );
        let tail = split_chunks(
            message_type,
            secure_channel_id,
            body.skip(max_body_size as int),
            max_body_size,
        );
        lemma_split_chunks(
            message_type,
            secure_channel_id,
            body.skip(max_body_size as int),
            max_body_size,
        );
        lemma_bodies_concat(seq![head], tail);
        assert(seq![head].drop_last() =~= Seq::<ChunkView>::empty());
        assert(bodies(seq![head].drop_last()) =~= Seq::<u8>::empty());
        assert(bodies(seq![head]) =~= head.chunk_body);
        assert(body.take(max_body_size as int) + body.skip(max_body_size as int) =~= body);
        assert forall|k: int| 0 <= k < chunks.len() implies {
            &&& (#[trigger] chunks[k]).chunk_header.is_valid
            &&& chunks[k].chunk_header.message_type == message_type
            &&& chunks[k].chunk_header.secure_channel_id == secure_channel_id
            &&& chunks[k].chunk_body.len() <= max_body_size
            &&& chunks[k].chunk_header.message_size == CHUNK_HEADER_SIZE
                + chunks[k].chunk_body.len()
            &&& chunks[k].chunk_header.is_final == (if k == chunks.len() - 1 {
                ChunkType::Final
            } else {
                ChunkType::Intermediate
            })
        } by {
            if k > 0 {
                assert(chunks[k] == tail[k - 1]);
            }
        }
    }
}

/// The chunks that a body was split into are put together to the body again
/// by a chunker that takes as many chunks as there are.
pub proof fn lemma_split_reassembles(
    message_type: ChunkMessageType,
    secure_channel_id: u32,
    body: Seq<u8>,
    max_body_size: nat,
    max_chunk_count: usize,
)
    requires
        0 < max_body_size <= u32::MAX - CHUNK_HEADER_SIZE,
        split_chunks(message_type, secure_channel_id, body, max_body_size).len()
            <= max_chunk_count,
    ensures
        reassembled(
            split_chunks(message_type, secure_channel_id, body, max_body_size),
            max_chunk_count,
        ) == Ok::<Seq<u8>, StatusCode>(body),
{
    let chunks = split_chunks(message_type, secure_channel_id, body, max_body_size);
    lemma_split_chunks(message_type, secure_channel_id, body, max_body_size);
    assert forall|k: int| 0 <= k < chunks.len() implies chunk_fault(
        chunks[0].chunk_header,
        #[trigger] chunks[k],
        k == chunks.len() - 1,
    ) is None by {
        assert(chunks[0].chunk_header.is_valid);
    }
    lemma_no_fault(chunks, 0);
}

/// The body of a message on an open secure channel: the security header
/// with the token, the sequence header, the node id that names the encoding
/// of the message, and the message.
pub open spec fn message_body(
    message: SupportedMessageView,
    token_id: u32,
    sequence: SequenceHeaderView,
) -> Seq<u8> {
    SymmetricSecurityHeader::encoding(SymmetricSecurityHeaderView { token_id })
        + SequenceHeader::encoding(sequence) + NodeId::encoding(
        numeric_node_id(0, message.object_id().spec_value()),
    ) + message.encoding()
}

/// The object that a node id names, where it is a number in namespace 0 that
/// names one.
pub open spec fn object_id_of(node_id: NodeIdView) -> Option<ObjectId> {
    if node_id.namespace == 0 && node_id.identifier is Numeric {
        ObjectId::spec_from_u32(node_id.identifier->Numeric_0)
    } else {
        None
    }
}

/// The message that the body of a message on an open secure channel holds,
/// with its sequence header. A node id that names no encoding of a message
/// that the stack knows is refused.
pub open spec fn message_in(body: Seq<u8>, limits: DecodingLimits) -> Result<
    (SequenceHeaderView, SupportedMessageView),
    StatusCode,
> {
    match SymmetricSecurityHeader::decoding(body, limits) {
        Err(e) => Err(e),
        Ok((_, s)) => match SequenceHeader::decoding(s, limits) {
            Err(e) => Err(e),
            Ok((sequence, s)) => match NodeId::decoding(s, limits) {
                Err(e) => Err(e),
                Ok((node_id, s)) => match object_id_of(node_id) {
                    None => Err(StatusCode::BadServiceUnsupported),
                    Some(object_id) => match message_decoding(object_id, s, limits) {
                        Err(e) => Err(e),
                        Ok((message, _)) => Ok((sequence, message)),
                    },
                },
            },
        },
    }
}

/// The message that chunks carry. Chunks of another kind than `Message` are
/// not what was expected.
pub open spec fn message_of(chunks: Seq<ChunkView>, max_chunk_count: usize, limits: DecodingLimits) -> Result<
    (SequenceHeaderView, SupportedMessageView),
    StatusCode,
> {
    match reassembled(chunks, max_chunk_count) {
        Err(e) => Err(e),
        Ok(body) => if chunks[0].chunk_header.message_type != ChunkMessageType::Message {
            Err(StatusCode::BadUnexpectedError)
        } else {
            message_in(body, limits)
        },
    }
}

/// A message is read back from the body that was made for it, with its
/// sequence header.
pub proof fn lemma_message_body_round_trip(
    message: SupportedMessageView,
    token_id: u32,
    sequence: SequenceHeaderView,
    limits: DecodingLimits,
)
    requires
        message.encodable(),
        message.within(limits),
    ensures
        message_in(message_body(message, token_id, sequence), limits) == Ok::<
            (SequenceHeaderView, SupportedMessageView),
            StatusCode,
        >((sequence, message)),
{
    let header = SymmetricSecurityHeaderView { token_id };
    let node_id = numeric_node_id(0, message.object_id().spec_value());
    let p0 = SymmetricSecurityHeader::encoding(header);
    let p1 = SequenceHeader::encoding(sequence);
    let p2 = NodeId::encoding(node_id);
    let p3 = message.encoding();
    let r3 = p3 + Seq::<u8>::empty();
    let r2 = p2 + r3;
    let r1 = p1 + r2;
    assert(r3 =~= p3);
    lemma_concat_assoc(p0 + p1, p2, p3);
    lemma_concat_assoc(p0, p1, p2 + p3);
    SymmetricSecurityHeader::lemma_round_trip(header, r1, limits);
    SequenceHeader::lemma_round_trip(sequence, r2, limits);
    NodeId::lemma_round_trip(node_id, r3, limits);
    lemma_message_round_trip(message, Seq::empty(), limits);
}

/// A message that was framed and split into chunks is read back from the
/// chunks by a chunker that takes as many chunks as there are.
pub proof fn lemma_message_chunks_round_trip(
    message: SupportedMessageView,
    secure_channel_id: u32,
    token_id: u32,
    sequence: SequenceHeaderView,
    max_body_size: nat,
    max_chunk_count: usize,
    limits: DecodingLimits,
)
    requires
        message.encodable(),
        message.within(limits),
        0 < max_body_size <= u32::MAX - CHUNK_HEADER_SIZE,
        split_chunks(
            ChunkMessageType::Message,
            secure_channel_id,
            message_body(message, token_id, sequence),
            max_body_size,
        ).len() <= max_chunk_count,
    ensures
        message_of(
            split_chunks(
                ChunkMessageType::Message,
                secure_channel_id,
                message_body(message, token_id, sequence),
                max_body_size,
            ),
            max_chunk_count,
            limits,
        ) == Ok::<(SequenceHeaderView, SupportedMessageView), StatusCode>((sequence, message)),
{
    let body = message_body(message, token_id, sequence);
    lemma_split_chunks(ChunkMessageType::Message, secure_channel_id, body, max_body_size);
    lemma_split_reassembles(
        ChunkMessageType::Message,
        secure_channel_id,
        body,
        max_body_size,
        max_chunk_count,
    );
    lemma_message_body_round_trip(message, token_id, sequence, limits);
}

impl Chunker {
    /// Frames a message for an open secure channel: the security header with
    /// the token, the sequence header, the node id that names the encoding of
    /// the message, and the message.
    pub fn encode_message_body(
        &self,
        message: &SupportedMessage,
        token_id: u32,
        sequence: &SequenceHeader,
    ) -> (r: Result<Vec<u8>, StatusCode>)
        ensures
            message@.encodable() ==> r is Ok && r.unwrap()@ == message_body(
                message@,
                token_id,
                sequence@,
            ),
            !message@.encodable() ==> r == Err::<Vec<u8>, StatusCode>(
                StatusCode::BadEncodingLimitsExceeded,
            ),
    {
        let mut body: Vec<u8> = Vec::new();
        let ghost o = body@;
        proof {
            lemma_extends_refl(o);
        }
        let header = SymmetricSecurityHeader { token_id };
        let node_id = message.node_id();
        write_part(&mut body, &header, Ghost(o))?;
        write_part(&mut body, sequence, Ghost(o))?;
        write_part(&mut body, &node_id, Ghost(o))?;
        let ghost head = body@;
        match message.encode(&mut body) {
            Ok(_) => {},
            Err(e) => {
                return Err(e);
            },
        }
        proof {
            let p0 = SymmetricSecurityHeader::encoding(header@);
            let p1 = SequenceHeader::encoding(sequence@);
            let p2 = NodeId::encoding(node_id@);
            assert(o + p0 =~= p0);
        }
        Ok(body)
    }

    /// Splits the body of a message into chunks of at most `max_chunk_size`
    /// bytes, header included.
    pub fn split(
        &self,
        message_type: ChunkMessageType,
        secure_channel_id: u32,
        body: &[u8],
        max_chunk_size: u32,
    ) -> (r: Result<Vec<Chunk>, StatusCode>)
        ensures
            match split_outcome(
                self.max_chunk_count,
                message_type,
                secure_channel_id,
                body@,
                max_chunk_size,
            ) {
                Ok(chunks) => r is Ok && seq_view(r.unwrap()@) == chunks,
                Err(e) => r matches Err(x) && x == e,
            },
    {
        if max_chunk_size as usize <= CHUNK_HEADER_SIZE {
            return Err(StatusCode::BadEncodingLimitsExceeded);
        }
        let max_body_size: usize = max_chunk_size as usize - CHUNK_HEADER_SIZE;
        let ghost all = split_chunks(message_type, secure_channel_id, body@, max_body_size as nat);
        let mut chunks: Vec<Chunk> = Vec::new();
        let mut offset: usize = 0;
        proof {
            assert(body@.skip(0) =~= body@);
            assert(seq_view(chunks@) + all =~= all);
        }
        while body.len() - offset > max_body_size
            invariant
                offset <= body.len(),
                0 < max_body_size <= u32::MAX - CHUNK_HEADER_SIZE,
                max_body_size == max_chunk_size - CHUNK_HEADER_SIZE,
                all == split_chunks(message_type, secure_channel_id, body@, max_body_size as nat),
                all == seq_view(chunks@) + split_chunks(
                    message_type,
                    secure_channel_id,
                    body@.skip(offset as int),
                    max_body_size as nat,
                ),
                chunks@.len() <= self.max_chunk_count,
            decreases body.len() - offset,
        {
            let ghost rest = body@.skip(offset as int);
            let ghost before = seq_view(chunks@);
            proof {
                lemma_split_chunks(
                    message_type,
                    secure_channel_id,
                    rest.skip(max_body_size as int),
                    max_body_size as nat,
                );
            }
            if chunks.len() >= self.max_chunk_count {
                return Err(StatusCode::BadTcpMessageTooLarge);
            }
            let piece = vstd::slice::slice_subrange(body, offset, offset + max_body_size);
            let chunk = Chunk {
                chunk_header: ChunkHeader {
                    message_type,
                    is_final: ChunkType::Intermediate,
                    message_size: (CHUNK_HEADER_SIZE + max_body_size) as u32,
                    secure_channel_id,
                    is_valid: true,
                },
                chunk_body: vstd::slice::slice_to_vec(piece),
            };
            proof {
                assert(piece@ =~= rest.take(max_body_size as int));
                assert(body@.skip(offset + max_body_size) =~= rest.skip(max_body_size as int));
            }
            chunks.push(chunk);
            proof {
                let head = chunk_of(
                    message_type,
                    ChunkType::Intermediate,
                    secure_channel_id,
                    rest.take(max_body_size as int),
                );
                assert(seq_view(chunks@) =~= before.push(head));
                assert(before + (seq![head] + split_chunks(
                    message_type,
                    secure_channel_id,
                    rest.skip(max_body_size as int),
                    max_body_size as nat,
                )) =~= before.push(head) + split_chunks(
                    message_type,
                    secure_channel_id,
                    rest.skip(max_body_size as int),
                    max_body_size as nat,
                ));
            }
            offset = offset + max_body_size;
        }
        if chunks.len() >= self.max_chunk_count {
            return Err(StatusCode::BadTcpMessageTooLarge);
        }
        let piece = vstd::slice::slice_subrange(body, offset, body.len());
        let ghost before = seq_view(chunks@);
        let chunk = Chunk {
            chunk_header: ChunkHeader {
                message_type,
                is_final: ChunkType::Final,
                message_size: (CHUNK_HEADER_SIZE + piece.len()) as u32,
                secure_channel_id,
                is_valid: true,
            },
            chunk_body: vstd::slice::slice_to_vec(piece),
        };
        chunks.push(chunk);
        proof {
            let rest = body@.skip(offset as int);
            let last = chunk_of(message_type, ChunkType::Final, secure_channel_id, rest);
            assert(piece@ =~= rest);
            assert(seq_view(chunks@) =~= before.push(last));
            assert(before + seq![last] =~= before.push(last));
        }
        Ok(chunks)
    }

    /// Frames a message for an open secure channel and splits it into chunks
    /// of at most `max_chunk_size` bytes.
    pub fn encode(
        &self,
        message: &SupportedMessage,
        secure_channel_id: u32,
        token_id: u32,
        sequence: &SequenceHeader,
        max_chunk_size: u32,
    ) -> (r: Result<Vec<Chunk>, StatusCode>)
        ensures
            !message@.encodable() ==> r == Err::<Vec<Chunk>, StatusCode>(
                StatusCode::BadEncodingLimitsExceeded,
            ),
            message@.encodable() ==> match split_outcome(
                self.max_chunk_count,
                ChunkMessageType::Message,
                secure_channel_id,
                message_body(message@, token_id, sequence@),
                max_chunk_size,
            ) {
                Ok(chunks) => r is Ok && seq_view(r.unwrap()@) == chunks,
                Err(e) => r matches Err(x) && x == e,
            },
    {
        let body = self.encode_message_body(message, token_id, sequence)?;
        self.split(ChunkMessageType::Message, secure_channel_id, body.as_slice(), max_chunk_size)
    }

    /// Reads the message that the body of a message on an open secure
    /// channel holds, with its sequence header.
    pub fn decode_message_body(&self, body: &[u8]) -> (r: Result<
        (SequenceHeader, SupportedMessage),
        StatusCode,
    >)
        ensures
            match message_in(body@, self.decoding_limits) {
                Ok((sequence, message)) => r is Ok && r.unwrap().0@ == sequence && r.unwrap().1@
                    == message,
                Err(e) => r matches Err(x) && x == e,
            },
    {
        let mut stream = ReadStream::new(body);
        let _ = SymmetricSecurityHeader::decode(&mut stream, &self.decoding_limits)?;
        let sequence = SequenceHeader::decode(&mut stream, &self.decoding_limits)?;
        let node_id = NodeId::decode(&mut stream, &self.decoding_limits)?;
        let object_id = match ObjectId::from_node_id(&node_id) {
            Some(object_id) => object_id,
            None => {
                return Err(StatusCode::BadServiceUnsupported);
            },
        };
        let message = SupportedMessage::decode_by_object_id(
            &mut stream,
            object_id,
            &self.decoding_limits,
        )?;
        Ok((sequence, message))
    }

    /// Reads the message that the chunks carry, with its sequence header.
    pub fn decode_message(&self, chunks: &Vec<&Chunk>) -> (r: Result<
        (SequenceHeader, SupportedMessage),
        StatusCode,
    >)
        ensures
            match message_of(seq_view(chunks@), self.max_chunk_count, self.decoding_limits) {
                Ok((sequence, message)) => r is Ok && r.unwrap().0@ == sequence && r.unwrap().1@
                    == message,
                Err(e) => r matches Err(x) && x == e,
            },
    {
        let body = self.reassemble(chunks)?;
        match chunks[0].chunk_header.message_type {
            ChunkMessageType::Message => {},
            _ => {
                return Err(StatusCode::BadUnexpectedError);
            },
        }
        self.decode_message_body(body.as_slice())
    }
}

} // verus!
