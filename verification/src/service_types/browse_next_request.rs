//! The request that continues a browse.

use vstd::prelude::*;
use crate::byte_string::ByteString;
use crate::encoding::{
    BinaryEncoder, DecodingLimits, EncodingResult, ReadStream, add_part_len, array_decoding,
    array_encodable, array_encoding, array_view, array_within, byte_len_array,
    lemma_array_round_trip, lemma_concat_assoc, lemma_extends_refl, read_array, write_array_part,
    write_part,
};
use crate::node_ids::ObjectId;
use crate::service_types::{MessageInfo, RequestHeader, RequestHeaderView};
use crate::status_codes::StatusCode;

verus! {

/// Continues one or more browse operations.
#[derive(Clone, Debug, PartialEq, Eq)]
pub struct BrowseNextRequest {
    /// The header of the request.
    pub request_header: RequestHeader,
    /// Whether the continuation points are given up instead of followed.
    pub release_continuation_points: bool,
    /// The continuation points that earlier responses returned.
    pub continuation_points: Option<Vec<ByteString>>,
}

/// The value of a `BrowseNextRequest`.
pub struct BrowseNextRequestView {
    pub request_header: RequestHeaderView,
    pub release_continuation_points: bool,
    pub continuation_points: Option<Seq<Option<Seq<u8>>>>,
}

impl View for BrowseNextRequest {
    type V = BrowseNextRequestView;

    open spec fn view(&self) -> BrowseNextRequestView {
        BrowseNextRequestView {
            request_header: self.request_header@,
            release_continuation_points: self.release_continuation_points,
            continuation_points: array_view(self.continuation_points),
        }
    }
}

impl MessageInfo for BrowseNextRequest {
    open spec fn message_object_id(&self) -> ObjectId {
        ObjectId::BrowseNextRequest_Encoding_DefaultBinary
    }

    fn object_id(&self) -> (r: ObjectId) {
        ObjectId::BrowseNextRequest_Encoding_DefaultBinary
    }
}

/// Wire form of a `BrowseNextRequest`: its fields in the order of their declaration.
pub open spec fn browse_next_request_encoding(v: BrowseNextRequestView) -> Seq<u8> {
    RequestHeader::encoding(v.request_header) + bool::encoding(v.release_continuation_points)
        + array_encoding::<ByteString>(v.continuation_points)
}

/// A `BrowseNextRequest` off the front of `s`: its fields, one behind the other.
#[verifier::opaque]
pub open spec fn browse_next_request_decoding(s: Seq<u8>, limits: DecodingLimits) -> Result<
    (BrowseNextRequestView, Seq<u8>),
    StatusCode,
> {
    match RequestHeader::decoding(s, limits) {
        Err(e) => Err(e),
        Ok((request_header, s)) =>
            match bool::decoding(s, limits) {
                Err(e) => Err(e),
                Ok((release_continuation_points, s)) =>
                    match array_decoding::<ByteString>(s, limits) {
                        Err(e) => Err(e),
                        Ok((continuation_points, s)) =>
                            Ok((
                                BrowseNextRequestView {
                                    request_header,
                                    release_continuation_points,
                                    continuation_points,
                                },
                                s,
                            )),
                    },
            },
    }
}

impl BinaryEncoder for BrowseNextRequest {
    open spec fn encoding(v: BrowseNextRequestView) -> Seq<u8> {
        browse_next_request_encoding(v)
    }

    open spec fn encodable(v: BrowseNextRequestView) -> bool {
        &&& RequestHeader::encodable(v.request_header)
        &&& array_encodable::<ByteString>(v.continuation_points)
    }

    open spec fn within(v: BrowseNextRequestView, limits: DecodingLimits) -> bool {
        &&& RequestHeader::within(v.request_header, limits)
        &&& array_within::<ByteString>(v.continuation_points, limits)
    }

    open spec fn decoding(s: Seq<u8>, limits: DecodingLimits) -> Result<
        (BrowseNextRequestView, Seq<u8>),
        StatusCode,
    > {
        browse_next_request_decoding(s, limits)
    }

    proof fn lemma_round_trip(v: BrowseNextRequestView, rest: Seq<u8>, limits: DecodingLimits) {
        reveal(browse_next_request_decoding);
        let p0 = RequestHeader::encoding(v.request_header);
        let p1 = bool::encoding(v.release_continuation_points);
        let p2 = array_encoding::<ByteString>(v.continuation_points);
        let r2 = p2 + rest;
        let r1 = p1 + r2;
        lemma_concat_assoc(p0 + p1, p2, rest);
        lemma_concat_assoc(p0, p1, r2);
        RequestHeader::lemma_round_trip(v.request_header, r1, limits);
        bool::lemma_round_trip(v.release_continuation_points, r2, limits);
        lemma_array_round_trip::<ByteString>(v.continuation_points, rest, limits);
    }

    fn byte_len(&self) -> (r: usize) {
        let ghost v = self@;
        let ghost e0 = RequestHeader::encoding(v.request_header);
        let ghost e1 = e0 + bool::encoding(v.release_continuation_points);
        let ghost e2 = e1 + array_encoding::<ByteString>(v.continuation_points);
        let mut size: usize = self.request_header.byte_len();
        size = add_part_len(
            size,
            self.release_continuation_points.byte_len(),
            Ghost(e0),
            Ghost(bool::encoding(v.release_continuation_points)),
        );
        size = add_part_len(
            size,
            byte_len_array(&self.continuation_points),
            Ghost(e1),
            Ghost(array_encoding::<ByteString>(v.continuation_points)),
        );
        size
    }

    fn encode(&self, stream: &mut Vec<u8>) -> (r: EncodingResult<usize>) {
        let start = stream.len();
        let ghost o = stream@;
        let ghost v = self@;
        proof {
            lemma_extends_refl(o);
        }
        write_part(stream, &self.request_header, Ghost(o))?;
        write_part(stream, &self.release_continuation_points, Ghost(o))?;
        write_array_part(stream, &self.continuation_points, Ghost(o))?;
        proof {
            let p0 = RequestHeader::encoding(v.request_header);
            let p1 = bool::encoding(v.release_continuation_points);
            let p2 = array_encoding::<ByteString>(v.continuation_points);
            lemma_concat_assoc(o, p0, p1);
            lemma_concat_assoc(o, p0 + p1, p2);
        }
        Ok(stream.len() - start)
    }

    fn decode(stream: &mut ReadStream, limits: &DecodingLimits) -> (r: EncodingResult<Self>) {
        proof {
            reveal(browse_next_request_decoding);
        }
        let request_header = RequestHeader::decode(stream, limits)?;
        let release_continuation_points = bool::decode(stream, limits)?;
        let continuation_points: Option<Vec<ByteString>> = read_array(stream, limits)?;
        Ok(
            BrowseNextRequest {
                request_header,
                release_continuation_points,
                continuation_points,
            },
        )
    }
}

} // verus!
