//! The result of checking one element of a content filter.

use vstd::prelude::*;
use crate::diagnostic_info::{DiagnosticInfo, DiagnosticInfoView};
use crate::encoding::{
    BinaryEncoder, DecodingLimits, EncodingResult, ReadStream, add_part_len, array_decoding,
    array_encodable, array_encoding, array_view, array_within, byte_len_array,
    lemma_array_round_trip, lemma_concat_assoc, lemma_extends_refl, read_array, write_array_part,
    write_part,
};
use crate::status_codes::StatusCode;

verus! {

/// What a server says of one element of a content filter.
#[derive(Clone, Debug, PartialEq, Eq)]
pub struct ContentFilterElementResult {
    /// The status of the element.
    pub status_code: StatusCode,
    /// The status of each operand.
    pub operand_status_codes: Option<Vec<StatusCode>>,
    /// Diagnostics for each operand.
    pub operand_diagnostic_infos: Option<Vec<DiagnosticInfo>>,
}

/// The value of a `ContentFilterElementResult`.
pub struct ContentFilterElementResultView {
    pub status_code: StatusCode,
    pub operand_status_codes: Option<Seq<StatusCode>>,
    pub operand_diagnostic_infos: Option<Seq<DiagnosticInfoView>>,
}

impl View for ContentFilterElementResult {
    type V = ContentFilterElementResultView;

    open spec fn view(&self) -> ContentFilterElementResultView {
        ContentFilterElementResultView {
            status_code: self.status_code,
            operand_status_codes: array_view(self.operand_status_codes),
            operand_diagnostic_infos: array_view(self.operand_diagnostic_infos),
        }
    }
}

/// Wire form of a `ContentFilterElementResult`: its fields in the order of their declaration.
pub open spec fn content_filter_element_result_encoding(v: ContentFilterElementResultView) -> Seq<u8> {
    StatusCode::encoding(v.status_code) + array_encoding::<StatusCode>(v.operand_status_codes)
        + array_encoding::<DiagnosticInfo>(v.operand_diagnostic_infos)
}

/// A `ContentFilterElementResult` off the front of `s`: its fields, one behind the other.
#[verifier::opaque]
pub open spec fn content_filter_element_result_decoding(s: Seq<u8>, limits: DecodingLimits) -> Result<
    (ContentFilterElementResultView, Seq<u8>),
    StatusCode,
> {
    match StatusCode::decoding(s, limits) {
        Err(e) => Err(e),
        Ok((status_code, s)) =>
            match array_decoding::<StatusCode>(s, limits) {
                Err(e) => Err(e),
                Ok((operand_status_codes, s)) =>
                    match array_decoding::<DiagnosticInfo>(s, limits) {
                        Err(e) => Err(e),
                        Ok((operand_diagnostic_infos, s)) =>
                            Ok((
                                ContentFilterElementResultView {
                                    status_code,
                                    operand_status_codes,
                                    operand_diagnostic_infos,
                                },
                                s,
                            )),
                    },
            },
    }
}

impl BinaryEncoder for ContentFilterElementResult {
    open spec fn encoding(v: ContentFilterElementResultView) -> Seq<u8> {
        content_filter_element_result_encoding(v)
    }

    open spec fn encodable(v: ContentFilterElementResultView) -> bool {
        &&& StatusCode::encodable(v.status_code)
        &&& array_encodable::<StatusCode>(v.operand_status_codes)
        &&& array_encodable::<DiagnosticInfo>(v.operand_diagnostic_infos)
    }

    open spec fn within(v: ContentFilterElementResultView, limits: DecodingLimits) -> bool {
        &&& StatusCode::within(v.status_code, limits)
        &&& array_within::<StatusCode>(v.operand_status_codes, limits)
        &&& array_within::<DiagnosticInfo>(v.operand_diagnostic_infos, limits)
    }

    open spec fn decoding(s: Seq<u8>, limits: DecodingLimits) -> Result<
        (ContentFilterElementResultView, Seq<u8>),
        StatusCode,
    > {
        content_filter_element_result_decoding(s, limits)
    }

    proof fn lemma_round_trip(v: ContentFilterElementResultView, rest: Seq<u8>, limits: DecodingLimits) {
        reveal(content_filter_element_result_decoding);
        let p0 = StatusCode::encoding(v.status_code);
        let p1 = array_encoding::<StatusCode>(v.operand_status_codes);
        let p2 = array_encoding::<DiagnosticInfo>(v.operand_diagnostic_infos);
        let r2 = p2 + rest;
        let r1 = p1 + r2;
        lemma_concat_assoc(p0 + p1, p2, rest);
        lemma_concat_assoc(p0, p1, r2);
        StatusCode::lemma_round_trip(v.status_code, r1, limits);
        lemma_array_round_trip::<StatusCode>(v.operand_status_codes, r2, limits);
        lemma_array_round_trip::<DiagnosticInfo>(v.operand_diagnostic_infos, rest, limits);
    }

    fn byte_len(&self) -> (r: usize) {
        let ghost v = self@;
        let ghost e0 = StatusCode::encoding(v.status_code);
        let ghost e1 = e0 + array_encoding::<StatusCode>(v.operand_status_codes);
        let ghost e2 = e1 + array_encoding::<DiagnosticInfo>(v.operand_diagnostic_infos);
        let mut size: usize = self.status_code.byte_len();
        size = add_part_len(
            size,
            byte_len_array(&self.operand_status_codes),
            Ghost(e0),
            Ghost(array_encoding::<StatusCode>(v.operand_status_codes)),
        );
        size = add_part_len(
            size,
            byte_len_array(&self.operand_diagnostic_infos),
            Ghost(e1),
            Ghost(array_encoding::<DiagnosticInfo>(v.operand_diagnostic_infos)),
        );
        size
    }

    fn encode(&self, stream: &mut Vec<u8>) -> (r: EncodingResult<usize>) {
        let start = stream.len();
        let ghost o = stream@;
        let ghost v = self@;
        proof {
            lemma_extends_refl(o);
        }
        write_part(stream, &self.status_code, Ghost(o))?;
        write_array_part(stream, &self.operand_status_codes, Ghost(o))?;
        write_array_part(stream, &self.operand_diagnostic_infos, Ghost(o))?;
        proof {
            let p0 = StatusCode::encoding(v.status_code);
            let p1 = array_encoding::<StatusCode>(v.operand_status_codes);
            let p2 = array_encoding::<DiagnosticInfo>(v.operand_diagnostic_infos);
            lemma_concat_assoc(o, p0, p1);
            lemma_concat_assoc(o, p0 + p1, p2);
        }
        Ok(stream.len() - start)
    }

    fn decode(stream: &mut ReadStream, limits: &DecodingLimits) -> (r: EncodingResult<Self>) {
        proof {
            reveal(content_filter_element_result_decoding);
        }
        let status_code = StatusCode::decode(stream, limits)?;
        let operand_status_codes: Option<Vec<StatusCode>> = read_array(stream, limits)?;
        let operand_diagnostic_infos: Option<Vec<DiagnosticInfo>> = read_array(stream, limits)?;
        Ok(
            ContentFilterElementResult {
                status_code,
                operand_status_codes,
                operand_diagnostic_infos,
            },
        )
    }
}

} // verus!
