//! The security token of a secure channel.

use vstd::prelude::*;
use crate::encoding::{
    BinaryEncoder, DecodingLimits, EncodingResult, ReadStream, add_part_len, lemma_concat_assoc,
    lemma_extends_refl, write_part,
};
use crate::service_types::UtcTime;
use crate::status_codes::StatusCode;

verus! {

/// The token under which the messages of a secure channel are protected.
#[derive(Clone, Copy, Debug, PartialEq, Eq)]
pub struct ChannelSecurityToken {
    /// The secure channel.
    pub channel_id: u32,
    /// The token within the channel.
    pub token_id: u32,
    /// When the token was made.
    pub created_at: UtcTime,
    /// How long the token lasts, in milliseconds.
    pub revised_lifetime: u32,
}

/// The value of a `ChannelSecurityToken`.
pub struct ChannelSecurityTokenView {
    pub channel_id: u32,
    pub token_id: u32,
    pub created_at: i64,
    pub revised_lifetime: u32,
}

impl View for ChannelSecurityToken {
    type V = ChannelSecurityTokenView;

    open spec fn view(&self) -> ChannelSecurityTokenView {
        ChannelSecurityTokenView {
            channel_id: self.channel_id,
            token_id: self.token_id,
            created_at: self.created_at@,
            revised_lifetime: self.revised_lifetime,
        }
    }
}

/// Wire form of a `ChannelSecurityToken`: its fields in the order of their declaration.
pub open spec fn channel_security_token_encoding(v: ChannelSecurityTokenView) -> Seq<u8> {
    u32::encoding(v.channel_id) + u32::encoding(v.token_id) + UtcTime::encoding(v.created_at)
        + u32::encoding(v.revised_lifetime)
}

/// A `ChannelSecurityToken` off the front of `s`: its fields, one behind the other.
#[verifier::opaque]
pub open spec fn channel_security_token_decoding(s: Seq<u8>, limits: DecodingLimits) -> Result<
    (ChannelSecurityTokenView, Seq<u8>),
    StatusCode,
> {
    match u32::decoding(s, limits) {
        Err(e) => Err(e),
        Ok((channel_id, s)) =>
            match u32::decoding(s, limits) {
                Err(e) => Err(e),
                Ok((token_id, s)) =>
                    match UtcTime::decoding(s, limits) {
                        Err(e) => Err(e),
                        Ok((created_at, s)) =>
                            match u32::decoding(s, limits) {
                                Err(e) => Err(e),
                                Ok((revised_lifetime, s)) =>
                                    Ok((
                                        ChannelSecurityTokenView {
                                            channel_id,
                                            token_id,
                                            created_at,
                                            revised_lifetime,
                                        },
                                        s,
                                    )),
                            },
                    },
            },
    }
}

impl BinaryEncoder for ChannelSecurityToken {
    open spec fn encoding(v: ChannelSecurityTokenView) -> Seq<u8> {
        channel_security_token_encoding(v)
    }

    open spec fn encodable(v: ChannelSecurityTokenView) -> bool {
        &&& UtcTime::encodable(v.created_at)
    }

    open spec fn within(v: ChannelSecurityTokenView, limits: DecodingLimits) -> bool {
        &&& UtcTime::within(v.created_at, limits)
    }

    open spec fn decoding(s: Seq<u8>, limits: DecodingLimits) -> Result<
        (ChannelSecurityTokenView, Seq<u8>),
        StatusCode,
    > {
        channel_security_token_decoding(s, limits)
    }

    proof fn lemma_round_trip(v: ChannelSecurityTokenView, rest: Seq<u8>, limits: DecodingLimits) {
        reveal(channel_security_token_decoding);
        let p0 = u32::encoding(v.channel_id);
        let p1 = u32::encoding(v.token_id);
        let p2 = UtcTime::encoding(v.created_at);
        let p3 = u32::encoding(v.revised_lifetime);
        let r3 = p3 + rest;
        let r2 = p2 + r3;
        let r1 = p1 + r2;
        lemma_concat_assoc(p0 + p1 + p2, p3, rest);
        lemma_concat_assoc(p0 + p1, p2, r3);
        lemma_concat_assoc(p0, p1, r2);
        u32::lemma_round_trip(v.channel_id, r1, limits);
        u32::lemma_round_trip(v.token_id, r2, limits);
        UtcTime::lemma_round_trip(v.created_at, r3, limits);
        u32::lemma_round_trip(v.revised_lifetime, rest, limits);
    }

    fn byte_len(&self) -> (r: usize) {
        let ghost v = self@;
        let ghost e0 = u32::encoding(v.channel_id);
        let ghost e1 = e0 + u32::encoding(v.token_id);
        let ghost e2 = e1 + UtcTime::encoding(v.created_at);
        let ghost e3 = e2 + u32::encoding(v.revised_lifetime);
        let mut size: usize = self.channel_id.byte_len();
        size = add_part_len(
            size,
            self.token_id.byte_len(),
            Ghost(e0),
            Ghost(u32::encoding(v.token_id)),
        );
        size = add_part_len(
            size,
            self.created_at.byte_len(),
            Ghost(e1),
            Ghost(UtcTime::encoding(v.created_at)),
        );
        size = add_part_len(
            size,
            self.revised_lifetime.byte_len(),
            Ghost(e2),
            Ghost(u32::encoding(v.revised_lifetime)),
        );
        size
    }

    fn encode(&self, stream: &mut Vec<u8>) -> (r: EncodingResult<usize>) {
        let start = stream.len();
        let ghost o = stream@;
        let ghost v = self@;
        proof {
            lemma_extends_refl(o);
        }
        write_part(stream, &self.channel_id, Ghost(o))?;
        write_part(stream, &self.token_id, Ghost(o))?;
        write_part(stream, &self.created_at, Ghost(o))?;
        write_part(stream, &self.revised_lifetime, Ghost(o))?;
        proof {
            let p0 = u32::encoding(v.channel_id);
            let p1 = u32::encoding(v.token_id);
            let p2 = UtcTime::encoding(v.created_at);
            let p3 = u32::encoding(v.revised_lifetime);
            lemma_concat_assoc(o, p0, p1);
            lemma_concat_assoc(o, p0 + p1, p2);
            lemma_concat_assoc(o, p0 + p1 + p2, p3);
        }
        Ok(stream.len() - start)
    }

    fn decode(stream: &mut ReadStream, limits: &DecodingLimits) -> (r: EncodingResult<Self>) {
        proof {
            reveal(channel_security_token_decoding);
        }
        let channel_id = u32::decode(stream, limits)?;
        let token_id = u32::decode(stream, limits)?;
        let created_at = UtcTime::decode(stream, limits)?;
        let revised_lifetime = u32::decode(stream, limits)?;
        Ok(ChannelSecurityToken { channel_id, token_id, created_at, revised_lifetime })
    }
}

} // verus!
