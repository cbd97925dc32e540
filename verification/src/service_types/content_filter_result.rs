//! The result of checking a content filter.

use vstd::prelude::*;
use crate::diagnostic_info::{DiagnosticInfo, DiagnosticInfoView};
use crate::encoding::{
    BinaryEncoder, DecodingLimits, EncodingResult, ReadStream, add_part_len, array_decoding,
    array_encodable, array_encoding, array_view, array_within, byte_len_array,
    lemma_array_round_trip, lemma_concat_assoc, lemma_extends_refl, read_array, write_array_part,
};
use crate::node_ids::ObjectId;
use crate::service_types::MessageInfo;
use crate::service_types::content_filter_element_result::{
    ContentFilterElementResult, ContentFilterElementResultView,
};
use crate::status_codes::StatusCode;

verus! {

/// What a server says of a content filter.
#[derive(Clone, Debug, PartialEq, Eq)]
pub struct ContentFilterResult {
    /// The result for each element.
    pub element_results: Option<Vec<ContentFilterElementResult>>,
    /// Diagnostics for each element.
    pub element_diagnostic_infos: Option<Vec<DiagnosticInfo>>,
}

/// The value of a `ContentFilterResult`.
pub struct ContentFilterResultView {
    pub element_results: Option<Seq<ContentFilterElementResultView>>,
    pub element_diagnostic_infos: Option<Seq<DiagnosticInfoView>>,
}

impl View for ContentFilterResult {
    type V = ContentFilterResultView;

    open spec fn view(&self) -> ContentFilterResultView {
        ContentFilterResultView {
            element_results: array_view(self.element_results),
            element_diagnostic_infos: array_view(self.element_diagnostic_infos),
        }
    }
}

impl MessageInfo for ContentFilterResult {
    open spec fn message_object_id(&self) -> ObjectId {
        ObjectId::ContentFilterResult_Encoding_DefaultBinary
    }

    fn object_id(&self) -> (r: ObjectId) {
        ObjectId::ContentFilterResult_Encoding_DefaultBinary
    }
}

/// Wire form of a `ContentFilterResult`: its fields in the order of their declaration.
pub open spec fn content_filter_result_encoding(v: ContentFilterResultView) -> Seq<u8> {
    array_encoding::<ContentFilterElementResult>(v.element_results)
        + array_encoding::<DiagnosticInfo>(v.element_diagnostic_infos)
}

/// A `ContentFilterResult` off the front of `s`: its fields, one behind the other.
#[verifier::opaque]
pub open spec fn content_filter_result_decoding(s: Seq<u8>, limits: DecodingLimits) -> Result<
    (ContentFilterResultView, Seq<u8>),
    StatusCode,
> {
    match array_decoding::<ContentFilterElementResult>(s, limits) {
        Err(e) => Err(e),
        Ok((element_results, s)) =>
            match array_decoding::<DiagnosticInfo>(s, limits) {
                Err(e) => Err(e),
                Ok((element_diagnostic_infos, s)) =>
                    Ok((
                        ContentFilterResultView {
                            element_results,
                            element_diagnostic_infos,
                        },
                        s,
                    )),
            },
    }
}

impl BinaryEncoder for ContentFilterResult {
    open spec fn encoding(v: ContentFilterResultView) -> Seq<u8> {
        content_filter_result_encoding(v)
    }

    open spec fn encodable(v: ContentFilterResultView) -> bool {
        &&& array_encodable::<ContentFilterElementResult>(v.element_results)
        &&& array_encodable::<DiagnosticInfo>(v.element_diagnostic_infos)
    }

    open spec fn within(v: ContentFilterResultView, limits: DecodingLimits) -> bool {
        &&& array_within::<ContentFilterElementResult>(v.element_results, limits)
        &&& array_within::<DiagnosticInfo>(v.element_diagnostic_infos, limits)
    }

    open spec fn decoding(s: Seq<u8>, limits: DecodingLimits) -> Result<
        (ContentFilterResultView, Seq<u8>),
        StatusCode,
    > {
        content_filter_result_decoding(s, limits)
    }

    proof fn lemma_round_trip(v: ContentFilterResultView, rest: Seq<u8>, limits: DecodingLimits) {
        reveal(content_filter_result_decoding);
        let p0 = array_encoding::<ContentFilterElementResult>(v.element_results);
        let p1 = array_encoding::<DiagnosticInfo>(v.element_diagnostic_infos);
        let r1 = p1 + rest;
        lemma_concat_assoc(p0, p1, rest);
        lemma_array_round_trip::<ContentFilterElementResult>(v.element_results, r1, limits);
        lemma_array_round_trip::<DiagnosticInfo>(v.element_diagnostic_infos, rest, limits);
    }

    fn byte_len(&self) -> (r: usize) {
        let ghost v = self@;
        let ghost e0 = array_encoding::<ContentFilterElementResult>(v.element_results);
        let ghost e1 = e0 + array_encoding::<DiagnosticInfo>(v.element_diagnostic_infos);
        let mut size: usize = byte_len_array(&self.element_results);
        size = add_part_len(
            size,
            byte_len_array(&self.element_diagnostic_infos),
            Ghost(e0),
            Ghost(array_encoding::<DiagnosticInfo>(v.element_diagnostic_infos)),
        );
        size
    }

    fn encode(&self, stream: &mut Vec<u8>) -> (r: EncodingResult<usize>) {
        let start = stream.len();
        let ghost o = stream@;
        let ghost v = self@;
        proof {
            lemma_extends_refl(o);
        }
        write_array_part(stream, &self.element_results, Ghost(o))?;
        write_array_part(stream, &self.element_diagnostic_infos, Ghost(o))?;
        proof {
            let p0 = array_encoding::<ContentFilterElementResult>(v.element_results);
            let p1 = array_encoding::<DiagnosticInfo>(v.element_diagnostic_infos);
            lemma_concat_assoc(o, p0, p1);
        }
        Ok(stream.len() - start)
    }

    fn decode(stream: &mut ReadStream, limits: &DecodingLimits) -> (r: EncodingResult<Self>) {
        proof {
            reveal(content_filter_result_decoding);
        }
        let element_results: Option<Vec<ContentFilterElementResult>> = read_array(stream, limits)?;
        let element_diagnostic_infos: Option<Vec<DiagnosticInfo>> = read_array(stream, limits)?;
        Ok(ContentFilterResult { element_results, element_diagnostic_infos })
    }
}

} // verus!
