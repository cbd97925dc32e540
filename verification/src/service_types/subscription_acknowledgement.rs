//! The acknowledgement of a notification.

use vstd::prelude::*;
use crate::encoding::{
    BinaryEncoder, DecodingLimits, EncodingResult, ReadStream, add_part_len, lemma_concat_assoc,
    lemma_extends_refl, write_part,
};
use crate::status_codes::StatusCode;

verus! {

/// Says that a notification of a subscription has arrived.
#[derive(Clone, Debug, PartialEq, Eq)]
pub struct SubscriptionAcknowledgement {
    /// The subscription.
    pub subscription_id: u32,
    /// The sequence number of the notification.
    pub sequence_number: u32,
}

/// The value of a `SubscriptionAcknowledgement`.
pub struct SubscriptionAcknowledgementView {
    pub subscription_id: u32,
    pub sequence_number: u32,
}

impl View for SubscriptionAcknowledgement {
    type V = SubscriptionAcknowledgementView;

    open spec fn view(&self) -> SubscriptionAcknowledgementView {
        SubscriptionAcknowledgementView {
            subscription_id: self.subscription_id,
            sequence_number: self.sequence_number,
        }
    }
}

/// Wire form of a `SubscriptionAcknowledgement`: its fields in the order of their declaration.
pub open spec fn subscription_acknowledgement_encoding(v: SubscriptionAcknowledgementView) -> Seq<u8> {
    u32::encoding(v.subscription_id) + u32::encoding(v.sequence_number)
}

/// A `SubscriptionAcknowledgement` off the front of `s`: its fields, one behind the other.
#[verifier::opaque]
pub open spec fn subscription_acknowledgement_decoding(s: Seq<u8>, limits: DecodingLimits) -> Result<
    (SubscriptionAcknowledgementView, Seq<u8>),
    StatusCode,
> {
    match u32::decoding(s, limits) {
        Err(e) => Err(e),
        Ok((subscription_id, s)) =>
            match u32::decoding(s, limits) {
                Err(e) => Err(e),
                Ok((sequence_number, s)) =>
                    Ok((SubscriptionAcknowledgementView { subscription_id, sequence_number }, s)),
            },
    }
}

impl BinaryEncoder for SubscriptionAcknowledgement {
    open spec fn encoding(v: SubscriptionAcknowledgementView) -> Seq<u8> {
        subscription_acknowledgement_encoding(v)
    }

    open spec fn encodable(v: SubscriptionAcknowledgementView) -> bool {
        true
    }

    open spec fn within(v: SubscriptionAcknowledgementView, limits: DecodingLimits) -> bool {
        true
    }

    open spec fn decoding(s: Seq<u8>, limits: DecodingLimits) -> Result<
        (SubscriptionAcknowledgementView, Seq<u8>),
        StatusCode,
    > {
        subscription_acknowledgement_decoding(s, limits)
    }

    proof fn lemma_round_trip(v: SubscriptionAcknowledgementView, rest: Seq<u8>, limits: DecodingLimits) {
        reveal(subscription_acknowledgement_decoding);
        let p0 = u32::encoding(v.subscription_id);
        let p1 = u32::encoding(v.sequence_number);
        let r1 = p1 + rest;
        lemma_concat_assoc(p0, p1, rest);
        u32::lemma_round_trip(v.subscription_id, r1, limits);
        u32::lemma_round_trip(v.sequence_number, rest, limits);
    }

    fn byte_len(&self) -> (r: usize) {
        let ghost v = self@;
        let ghost e0 = u32::encoding(v.subscription_id);
        let ghost e1 = e0 + u32::encoding(v.sequence_number);
        let mut size: usize = self.subscription_id.byte_len();
        size = add_part_len(
            size,
            self.sequence_number.byte_len(),
            Ghost(e0),
            Ghost(u32::encoding(v.sequence_number)),
        );
        size
    }

    fn encode(&self, stream: &mut Vec<u8>) -> (r: EncodingResult<usize>) {
        let start = stream.len();
        let ghost o = stream@;
        let ghost v = self@;
        proof {
            lemma_extends_refl(o);
        }
        write_part(stream, &self.subscription_id, Ghost(o))?;
        write_part(stream, &self.sequence_number, Ghost(o))?;
        proof {
            let p0 = u32::encoding(v.subscription_id);
            let p1 = u32::encoding(v.sequence_number);
            lemma_concat_assoc(o, p0, p1);
        }
        Ok(stream.len() - start)
    }

    fn decode(stream: &mut ReadStream, limits: &DecodingLimits) -> (r: EncodingResult<Self>) {
        proof {
            reveal(subscription_acknowledgement_decoding);
        }
        let subscription_id = u32::decode(stream, limits)?;
        let sequence_number = u32::decode(stream, limits)?;
        Ok(SubscriptionAcknowledgement { subscription_id, sequence_number })
    }
}

} // verus!
