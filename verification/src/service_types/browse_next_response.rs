//! The response to a request that continues a browse.

use vstd::prelude::*;
use crate::diagnostic_info::{DiagnosticInfo, DiagnosticInfoView};
use crate::encoding::{
    BinaryEncoder, DecodingLimits, EncodingResult, ReadStream, add_part_len, array_decoding,
    array_encodable, array_encoding, array_view, array_within, byte_len_array,
    lemma_array_round_trip, lemma_concat_assoc, lemma_extends_refl, read_array, write_array_part,
    write_part,
};
use crate::node_ids::ObjectId;
use crate::service_types::{MessageInfo, ResponseHeader, ResponseHeaderView};
use crate::service_types::browse_result::{BrowseResult, BrowseResultView};
use crate::status_codes::StatusCode;

verus! {

/// Continues one or more browse operations.
#[derive(Clone, Debug, PartialEq, Eq)]
pub struct BrowseNextResponse {
    /// The header of the response.
    pub response_header: ResponseHeader,
    /// The result for each continuation point.
    pub results: Option<Vec<BrowseResult>>,
    /// Diagnostics for each continuation point.
    pub diagnostic_infos: Option<Vec<DiagnosticInfo>>,
}

/// The value of a `BrowseNextResponse`.
pub struct BrowseNextResponseView {
    pub response_header: ResponseHeaderView,
    pub results: Option<Seq<BrowseResultView>>,
    pub diagnostic_infos: Option<Seq<DiagnosticInfoView>>,
}

impl View for BrowseNextResponse {
    type V = BrowseNextResponseView;

    open spec fn view(&self) -> BrowseNextResponseView {
        BrowseNextResponseView {
            response_header: self.response_header@,
            results: array_view(self.results),
            diagnostic_infos: array_view(self.diagnostic_infos),
        }
    }
}

impl MessageInfo for BrowseNextResponse {
    open spec fn message_object_id(&self) -> ObjectId {
        ObjectId::BrowseNextResponse_Encoding_DefaultBinary
    }

    fn object_id(&self) -> (r: ObjectId) {
        ObjectId::BrowseNextResponse_Encoding_DefaultBinary
    }
}

/// Wire form of a `BrowseNextResponse`: its fields in the order of their declaration.
pub open spec fn browse_next_response_encoding(v: BrowseNextResponseView) -> Seq<u8> {
    ResponseHeader::encoding(v.response_header) + array_encoding::<BrowseResult>(v.results)
        + array_encoding::<DiagnosticInfo>(v.diagnostic_infos)
}

/// A `BrowseNextResponse` off the front of `s`: its fields, one behind the other.
#[verifier::opaque]
pub open spec fn browse_next_response_decoding(s: Seq<u8>, limits: DecodingLimits) -> Result<
    (BrowseNextResponseView, Seq<u8>),
    StatusCode,
> {
    match ResponseHeader::decoding(s, limits) {
        Err(e) => Err(e),
        Ok((response_header, s)) =>
            match array_decoding::<BrowseResult>(s, limits) {
                Err(e) => Err(e),
                Ok((results, s)) =>
                    match array_decoding::<DiagnosticInfo>(s, limits) {
                        Err(e) => Err(e),
                        Ok((diagnostic_infos, s)) =>
                            Ok((
                                BrowseNextResponseView {
                                    response_header,
                                    results,
                                    diagnostic_infos,
                                },
                                s,
                            )),
                    },
            },
    }
}

impl BinaryEncoder for BrowseNextResponse {
    open spec fn encoding(v: BrowseNextResponseView) -> Seq<u8> {
        browse_next_response_encoding(v)
    }

    open spec fn encodable(v: BrowseNextResponseView) -> bool {
        &&& ResponseHeader::encodable(v.response_header)
        &&& array_encodable::<BrowseResult>(v.results)
        &&& array_encodable::<DiagnosticInfo>(v.diagnostic_infos)
    }

    open spec fn within(v: BrowseNextResponseView, limits: DecodingLimits) -> bool {
        &&& ResponseHeader::within(v.response_header, limits)
        &&& array_within::<BrowseResult>(v.results, limits)
        &&& array_within::<DiagnosticInfo>(v.diagnostic_infos, limits)
    }

    open spec fn decoding(s: Seq<u8>, limits: DecodingLimits) -> Result<
        (BrowseNextResponseView, Seq<u8>),
        StatusCode,
    > {
        browse_next_response_decoding(s, limits)
    }

    proof fn lemma_round_trip(v: BrowseNextResponseView, rest: Seq<u8>, limits: DecodingLimits) {
        reveal(browse_next_response_decoding);
        let p0 = ResponseHeader::encoding(v.response_header);
        let p1 = array_encoding::<BrowseResult>(v.results);
        let p2 = array_encoding::<DiagnosticInfo>(v.diagnostic_infos);
        let r2 = p2 + rest;
        let r1 = p1 + r2;
        lemma_concat_assoc(p0 + p1, p2, rest);
        lemma_concat_assoc(p0, p1, r2);
        ResponseHeader::lemma_round_trip(v.response_header, r1, limits);
        lemma_array_round_trip::<BrowseResult>(v.results, r2, limits);
        lemma_array_round_trip::<DiagnosticInfo>(v.diagnostic_infos, rest, limits);
    }

    fn byte_len(&self) -> (r: usize) {
        let ghost v = self@;
        let ghost e0 = ResponseHeader::encoding(v.response_header);
        let ghost e1 = e0 + array_encoding::<BrowseResult>(v.results);
        let ghost e2 = e1 + array_encoding::<DiagnosticInfo>(v.diagnostic_infos);
        let mut size: usize = self.response_header.byte_len();
        size = add_part_len(
            size,
            byte_len_array(&self.results),
            Ghost(e0),
            Ghost(array_encoding::<BrowseResult>(v.results)),
        );
        size = add_part_len(
            size,
            byte_len_array(&self.diagnostic_infos),
            Ghost(e1),
            Ghost(array_encoding::<DiagnosticInfo>(v.diagnostic_infos)),
        );
        size
    }

    fn encode(&self, stream: &mut Vec<u8>) -> (r: EncodingResult<usize>) {
        let start = stream.len();
        let ghost o = stream@;
        let ghost v = self@;
        proof {
            lemma_extends_refl(o);
        }
        write_part(stream, &self.response_header, Ghost(o))?;
        write_array_part(stream, &self.results, Ghost(o))?;
        write_array_part(stream, &self.diagnostic_infos, Ghost(o))?;
        proof {
            let p0 = ResponseHeader::encoding(v.response_header);
            let p1 = array_encoding::<BrowseResult>(v.results);
            let p2 = array_encoding::<DiagnosticInfo>(v.diagnostic_infos);
            lemma_concat_assoc(o, p0, p1);
            lemma_concat_assoc(o, p0 + p1, p2);
        }
        Ok(stream.len() - start)
    }

    fn decode(stream: &mut ReadStream, limits: &DecodingLimits) -> (r: EncodingResult<Self>) {
        proof {
            reveal(browse_next_response_decoding);
        }
        let response_header = ResponseHeader::decode(stream, limits)?;
        let results: Option<Vec<BrowseResult>> = read_array(stream, limits)?;
        let diagnostic_infos: Option<Vec<DiagnosticInfo>> = read_array(stream, limits)?;
        Ok(BrowseNextResponse { response_header, results, diagnostic_infos })
    }
}

} // verus!
