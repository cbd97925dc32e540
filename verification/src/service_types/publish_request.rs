//! The request that asks for notifications.

use vstd::prelude::*;
use crate::encoding::{
    BinaryEncoder, DecodingLimits, EncodingResult, ReadStream, add_part_len, array_decoding,
    array_encodable, array_encoding, array_view, array_within, byte_len_array,
    lemma_array_round_trip, lemma_concat_assoc, lemma_extends_refl, read_array, write_array_part,
    write_part,
};
use crate::node_ids::ObjectId;
use crate::service_types::{MessageInfo, RequestHeader, RequestHeaderView};
use crate::service_types::subscription_acknowledgement::{
    SubscriptionAcknowledgement, SubscriptionAcknowledgementView,
};
use crate::status_codes::StatusCode;

verus! {

/// Acknowledges notifications and asks for the next.
#[derive(Clone, Debug, PartialEq, Eq)]
pub struct PublishRequest {
    /// The header of the request.
    pub request_header: RequestHeader,
    /// The notifications that have arrived.
    pub subscription_acknowledgements: Option<Vec<SubscriptionAcknowledgement>>,
}

/// The value of a `PublishRequest`.
pub struct PublishRequestView {
    pub request_header: RequestHeaderView,
    pub subscription_acknowledgements: Option<Seq<SubscriptionAcknowledgementView>>,
}

impl View for PublishRequest {
    type V = PublishRequestView;

    open spec fn view(&self) -> PublishRequestView {
        PublishRequestView {
            request_header: self.request_header@,
            subscription_acknowledgements: array_view(self.subscription_acknowledgements),
        }
    }
}

impl MessageInfo for PublishRequest {
    open spec fn message_object_id(&self) -> ObjectId {
        ObjectId::PublishRequest_Encoding_DefaultBinary
    }

    fn object_id(&self) -> (r: ObjectId) {
        ObjectId::PublishRequest_Encoding_DefaultBinary
    }
}

/// Wire form of a `PublishRequest`: its fields in the order of their declaration.
pub open spec fn publish_request_encoding(v: PublishRequestView) -> Seq<u8> {
    RequestHeader::encoding(v.request_header)
        + array_encoding::<SubscriptionAcknowledgement>(v.subscription_acknowledgements)
}

/// A `PublishRequest` off the front of `s`: its fields, one behind the other.
#[verifier::opaque]
pub open spec fn publish_request_decoding(s: Seq<u8>, limits: DecodingLimits) -> Result<
    (PublishRequestView, Seq<u8>),
    StatusCode,
> {
    match RequestHeader::decoding(s, limits) {
        Err(e) => Err(e),
        Ok((request_header, s)) =>
            match array_decoding::<SubscriptionAcknowledgement>(s, limits) {
                Err(e) => Err(e),
                Ok((subscription_acknowledgements, s)) =>
                    Ok((PublishRequestView { request_header, subscription_acknowledgements }, s)),
            },
    }
}

impl BinaryEncoder for PublishRequest {
    open spec fn encoding(v: PublishRequestView) -> Seq<u8> {
        publish_request_encoding(v)
    }

    open spec fn encodable(v: PublishRequestView) -> bool {
        &&& RequestHeader::encodable(v.request_header)
        &&& array_encodable::<SubscriptionAcknowledgement>(v.subscription_acknowledgements)
    }

    open spec fn within(v: PublishRequestView, limits: DecodingLimits) -> bool {
        &&& RequestHeader::within(v.request_header, limits)
        &&& array_within::<SubscriptionAcknowledgement>(v.subscription_acknowledgements, limits)
    }

    open spec fn decoding(s: Seq<u8>, limits: DecodingLimits) -> Result<
        (PublishRequestView, Seq<u8>),
        StatusCode,
    > {
        publish_request_decoding(s, limits)
    }

    proof fn lemma_round_trip(v: PublishRequestView, rest: Seq<u8>, limits: DecodingLimits) {
        reveal(publish_request_decoding);
        let p0 = RequestHeader::encoding(v.request_header);
        let p1 = array_encoding::<SubscriptionAcknowledgement>(v.subscription_acknowledgements);
        let r1 = p1 + rest;
        lemma_concat_assoc(p0, p1, rest);
        RequestHeader::lemma_round_trip(v.request_header, r1, limits);
        lemma_array_round_trip::<SubscriptionAcknowledgement>(v.subscription_acknowledgements, rest, limits);
    }

    fn byte_len(&self) -> (r: usize) {
        let ghost v = self@;
        let ghost e0 = RequestHeader::encoding(v.request_header);
        let ghost e1 = e0 + array_encoding::<SubscriptionAcknowledgement>(v.subscription_acknowledgements);
        let mut size: usize = self.request_header.byte_len();
        size = add_part_len(
            size,
            byte_len_array(&self.subscription_acknowledgements),
            Ghost(e0),
            Ghost(array_encoding::<SubscriptionAcknowledgement>(v.subscription_acknowledgements)),
        );
        size
    }

    fn encode(&self, stream: &mut Vec<u8>) -> (r: EncodingResult<usize>) {
        let start = stream.len();
        let ghost o = stream@;
        let ghost v = self@;
        proof {
            lemma_extends_refl(o);
        }
        write_part(stream, &self.request_header, Ghost(o))?;
        write_array_part(stream, &self.subscription_acknowledgements, Ghost(o))?;
        proof {
            let p0 = RequestHeader::encoding(v.request_header);
            let p1 = array_encoding::<SubscriptionAcknowledgement>(v.subscription_acknowledgements);
            lemma_concat_assoc(o, p0, p1);
        }
        Ok(stream.len() - start)
    }

    fn decode(stream: &mut ReadStream, limits: &DecodingLimits) -> (r: EncodingResult<Self>) {
        proof {
            reveal(publish_request_decoding);
        }
        let request_header = RequestHeader::decode(stream, limits)?;
        let subscription_acknowledgements: Option<Vec<SubscriptionAcknowledgement>> = read_array(stream, limits)?;
        Ok(PublishRequest { request_header, subscription_acknowledgements })
    }
}

} // verus!
