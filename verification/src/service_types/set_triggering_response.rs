//! The response to a request that sets triggering links.

use vstd::prelude::*;
use crate::diagnostic_info::{DiagnosticInfo, DiagnosticInfoView};
use crate::encoding::{
    BinaryEncoder, DecodingLimits, EncodingResult, ReadStream, add_part_len, array_decoding,
    array_encodable, array_encoding, array_view, array_within, byte_len_array,
    lemma_array_round_trip, lemma_concat_assoc, lemma_extends_refl, read_array, write_array_part,
    write_part,
};
use crate::node_ids::ObjectId;
use crate::service_types::{MessageInfo, ResponseHeader, ResponseHeaderView};
use crate::status_codes::StatusCode;

verus! {

/// The outcome of adding and removing triggering links.
#[derive(Clone, Debug, PartialEq, Eq)]
pub struct SetTriggeringResponse {
    /// The header of the response.
    pub response_header: ResponseHeader,
    /// The outcome for each link to add.
    pub add_results: Option<Vec<StatusCode>>,
    /// Diagnostics for each link to add.
    pub add_diagnostic_infos: Option<Vec<DiagnosticInfo>>,
    /// The outcome for each link to remove.
    pub remove_results: Option<Vec<StatusCode>>,
    /// Diagnostics for each link to remove.
    pub remove_diagnostic_infos: Option<Vec<DiagnosticInfo>>,
}

/// The value of a `SetTriggeringResponse`.
pub struct SetTriggeringResponseView {
    pub response_header: ResponseHeaderView,
    pub add_results: Option<Seq<StatusCode>>,
    pub add_diagnostic_infos: Option<Seq<DiagnosticInfoView>>,
    pub remove_results: Option<Seq<StatusCode>>,
    pub remove_diagnostic_infos: Option<Seq<DiagnosticInfoView>>,
}

impl View for SetTriggeringResponse {
    type V = SetTriggeringResponseView;

    open spec fn view(&self) -> SetTriggeringResponseView {
        SetTriggeringResponseView {
            response_header: self.response_header@,
            add_results: array_view(self.add_results),
            add_diagnostic_infos: array_view(self.add_diagnostic_infos),
            remove_results: array_view(self.remove_results),
            remove_diagnostic_infos: array_view(self.remove_diagnostic_infos),
        }
    }
}

impl MessageInfo for SetTriggeringResponse {
    open spec fn message_object_id(&self) -> ObjectId {
        ObjectId::SetTriggeringResponse_Encoding_DefaultBinary
    }

    fn object_id(&self) -> (r: ObjectId) {
        ObjectId::SetTriggeringResponse_Encoding_DefaultBinary
    }
}

/// Wire form of a `SetTriggeringResponse`: its fields in the order of their declaration.
pub open spec fn set_triggering_response_encoding(v: SetTriggeringResponseView) -> Seq<u8> {
    ResponseHeader::encoding(v.response_header) + array_encoding::<StatusCode>(v.add_results)
        + array_encoding::<DiagnosticInfo>(v.add_diagnostic_infos)
        + array_encoding::<StatusCode>(v.remove_results)
        + array_encoding::<DiagnosticInfo>(v.remove_diagnostic_infos)
}

/// A `SetTriggeringResponse` off the front of `s`: its fields, one behind the other.
#[verifier::opaque]
pub open spec fn set_triggering_response_decoding(s: Seq<u8>, limits: DecodingLimits) -> Result<
    (SetTriggeringResponseView, Seq<u8>),
    StatusCode,
> {
    match ResponseHeader::decoding(s, limits) {
        Err(e) => Err(e),
        Ok((response_header, s)) =>
            match array_decoding::<StatusCode>(s, limits) {
                Err(e) => Err(e),
                Ok((add_results, s)) =>
                    match array_decoding::<DiagnosticInfo>(s, limits) {
                        Err(e) => Err(e),
                        Ok((add_diagnostic_infos, s)) =>
                            match array_decoding::<StatusCode>(s, limits) {
                                Err(e) => Err(e),
                                Ok((remove_results, s)) =>
                                    match array_decoding::<DiagnosticInfo>(s, limits) {
                                        Err(e) => Err(e),
                                        Ok((remove_diagnostic_infos, s)) =>
                                            Ok((
                                                SetTriggeringResponseView {
                                                    response_header,
                                                    add_results,
                                                    add_diagnostic_infos,
                                                    remove_results,
                                                    remove_diagnostic_infos,
                                                },
                                                s,
                                            )),
                                    },
                            },
                    },
            },
    }
}

impl BinaryEncoder for SetTriggeringResponse {
    open spec fn encoding(v: SetTriggeringResponseView) -> Seq<u8> {
        set_triggering_response_encoding(v)
    }

    open spec fn encodable(v: SetTriggeringResponseView) -> bool {
        &&& ResponseHeader::encodable(v.response_header)
        &&& array_encodable::<StatusCode>(v.add_results)
        &&& array_encodable::<DiagnosticInfo>(v.add_diagnostic_infos)
        &&& array_encodable::<StatusCode>(v.remove_results)
        &&& array_encodable::<DiagnosticInfo>(v.remove_diagnostic_infos)
    }

    open spec fn within(v: SetTriggeringResponseView, limits: DecodingLimits) -> bool {
        &&& ResponseHeader::within(v.response_header, limits)
        &&& array_within::<StatusCode>(v.add_results, limits)
        &&& array_within::<DiagnosticInfo>(v.add_diagnostic_infos, limits)
        &&& array_within::<StatusCode>(v.remove_results, limits)
        &&& array_within::<DiagnosticInfo>(v.remove_diagnostic_infos, limits)
    }

    open spec fn decoding(s: Seq<u8>, limits: DecodingLimits) -> Result<
        (SetTriggeringResponseView, Seq<u8>),
        StatusCode,
    > {
        set_triggering_response_decoding(s, limits)
    }

    proof fn lemma_round_trip(v: SetTriggeringResponseView, rest: Seq<u8>, limits: DecodingLimits) {
        reveal(set_triggering_response_decoding);
        let p0 = ResponseHeader::encoding(v.response_header);
        let p1 = array_encoding::<StatusCode>(v.add_results);
        let p2 = array_encoding::<DiagnosticInfo>(v.add_diagnostic_infos);
        let p3 = array_encoding::<StatusCode>(v.remove_results);
        let p4 = array_encoding::<DiagnosticInfo>(v.remove_diagnostic_infos);
        let r4 = p4 + rest;
        let r3 = p3 + r4;
        let r2 = p2 + r3;
        let r1 = p1 + r2;
        lemma_concat_assoc(p0 + p1 + p2 + p3, p4, rest);
        lemma_concat_assoc(p0 + p1 + p2, p3, r4);
        lemma_concat_assoc(p0 + p1, p2, r3);
        lemma_concat_assoc(p0, p1, r2);
        ResponseHeader::lemma_round_trip(v.response_header, r1, limits);
        lemma_array_round_trip::<StatusCode>(v.add_results, r2, limits);
        lemma_array_round_trip::<DiagnosticInfo>(v.add_diagnostic_infos, r3, limits);
        lemma_array_round_trip::<StatusCode>(v.remove_results, r4, limits);
        lemma_array_round_trip::<DiagnosticInfo>(v.remove_diagnostic_infos, rest, limits);
    }

    fn byte_len(&self) -> (r: usize) {
        let ghost v = self@;
        let ghost e0 = ResponseHeader::encoding(v.response_header);
        let ghost e1 = e0 + array_encoding::<StatusCode>(v.add_results);
        let ghost e2 = e1 + array_encoding::<DiagnosticInfo>(v.add_diagnostic_infos);
        let ghost e3 = e2 + array_encoding::<StatusCode>(v.remove_results);
        let ghost e4 = e3 + array_encoding::<DiagnosticInfo>(v.remove_diagnostic_infos);
        let mut size: usize = self.response_header.byte_len();
        size = add_part_len(
            size,
            byte_len_array(&self.add_results),
            Ghost(e0),
            Ghost(array_encoding::<StatusCode>(v.add_results)),
        );
        size = add_part_len(
            size,
            byte_len_array(&self.add_diagnostic_infos),
            Ghost(e1),
            Ghost(array_encoding::<DiagnosticInfo>(v.add_diagnostic_infos)),
        );
        size = add_part_len(
            size,
            byte_len_array(&self.remove_results),
            Ghost(e2),
            Ghost(array_encoding::<StatusCode>(v.remove_results)),
        );
        size = add_part_len(
            size,
            byte_len_array(&self.remove_diagnostic_infos),
            Ghost(e3),
            Ghost(array_encoding::<DiagnosticInfo>(v.remove_diagnostic_infos)),
        );
        size
    }

    fn encode(&self, stream: &mut Vec<u8>) -> (r: EncodingResult<usize>) {
        let start = stream.len();
        let ghost o = stream@;
        let ghost v = self@;
        proof {
            lemma_extends_refl(o);
        }
        write_part(stream, &self.response_header, Ghost(o))?;
        write_array_part(stream, &self.add_results, Ghost(o))?;
        write_array_part(stream, &self.add_diagnostic_infos, Ghost(o))?;
        write_array_part(stream, &self.remove_results, Ghost(o))?;
        write_array_part(stream, &self.remove_diagnostic_infos, Ghost(o))?;
        proof {
            let p0 = ResponseHeader::encoding(v.response_header);
            let p1 = array_encoding::<StatusCode>(v.add_results);
            let p2 = array_encoding::<DiagnosticInfo>(v.add_diagnostic_infos);
            let p3 = array_encoding::<StatusCode>(v.remove_results);
            let p4 = array_encoding::<DiagnosticInfo>(v.remove_diagnostic_infos);
            lemma_concat_assoc(o, p0, p1);
            lemma_concat_assoc(o, p0 + p1, p2);
            lemma_concat_assoc(o, p0 + p1 + p2, p3);
            lemma_concat_assoc(o, p0 + p1 + p2 + p3, p4);
        }
        Ok(stream.len() - start)
    }

    fn decode(stream: &mut ReadStream, limits: &DecodingLimits) -> (r: EncodingResult<Self>) {
        proof {
            reveal(set_triggering_response_decoding);
        }
        let response_header = ResponseHeader::decode(stream, limits)?;
        let add_results: Option<Vec<StatusCode>> = read_array(stream, limits)?;
        let add_diagnostic_infos: Option<Vec<DiagnosticInfo>> = read_array(stream, limits)?;
        let remove_results: Option<Vec<StatusCode>> = read_array(stream, limits)?;
        let remove_diagnostic_infos: Option<Vec<DiagnosticInfo>> = read_array(stream, limits)?;
        Ok(
            SetTriggeringResponse {
                response_header,
                add_results,
                add_diagnostic_infos,
                remove_results,
                remove_diagnostic_infos,
            },
        )
    }
}

} // verus!
