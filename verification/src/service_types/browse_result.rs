//! The result of browsing one node.

use vstd::prelude::*;
use crate::byte_string::ByteString;
use crate::encoding::{
    BinaryEncoder, DecodingLimits, EncodingResult, ReadStream, add_part_len, array_decoding,
    array_encodable, array_encoding, array_view, array_within, byte_len_array,
    lemma_array_round_trip, lemma_concat_assoc, lemma_extends_refl, read_array, write_array_part,
    write_part,
};
use crate::service_types::reference_description::{ReferenceDescription, ReferenceDescriptionView};
use crate::status_codes::StatusCode;

verus! {

/// The references that browsing a node found.
#[derive(Clone, Debug, PartialEq, Eq)]
pub struct BrowseResult {
    /// The outcome of the browse.
    pub status_code: StatusCode,
    /// Where to continue, if not all references fit.
    pub continuation_point: ByteString,
    /// The references that were found.
    pub references: Option<Vec<ReferenceDescription>>,
}

/// The value of a `BrowseResult`.
pub struct BrowseResultView {
    pub status_code: StatusCode,
    pub continuation_point: Option<Seq<u8>>,
    pub references: Option<Seq<ReferenceDescriptionView>>,
}

impl View for BrowseResult {
    type V = BrowseResultView;

    open spec fn view(&self) -> BrowseResultView {
        BrowseResultView {
            status_code: self.status_code,
            continuation_point: self.continuation_point@,
            references: array_view(self.references),
        }
    }
}

/// Wire form of a `BrowseResult`: its fields in the order of their declaration.
pub open spec fn browse_result_encoding(v: BrowseResultView) -> Seq<u8> {
    StatusCode::encoding(v.status_code) + ByteString::encoding(v.continuation_point)
        + array_encoding::<ReferenceDescription>(v.references)
}

/// A `BrowseResult` off the front of `s`: its fields, one behind the other.
#[verifier::opaque]
pub open spec fn browse_result_decoding(s: Seq<u8>, limits: DecodingLimits) -> Result<
    (BrowseResultView, Seq<u8>),
    StatusCode,
> {
    match StatusCode::decoding(s, limits) {
        Err(e) => Err(e),
        Ok((status_code, s)) =>
            match ByteString::decoding(s, limits) {
                Err(e) => Err(e),
                Ok((continuation_point, s)) =>
                    match array_decoding::<ReferenceDescription>(s, limits) {
                        Err(e) => Err(e),
                        Ok((references, s)) =>
                            Ok((
                                BrowseResultView {
                                    status_code,
                                    continuation_point,
                                    references,
                                },
                                s,
                            )),
                    },
            },
    }
}

impl BinaryEncoder for BrowseResult {
    open spec fn encoding(v: BrowseResultView) -> Seq<u8> {
        browse_result_encoding(v)
    }

    open spec fn encodable(v: BrowseResultView) -> bool {
        &&& StatusCode::encodable(v.status_code)
        &&& ByteString::encodable(v.continuation_point)
        &&& array_encodable::<ReferenceDescription>(v.references)
    }

    open spec fn within(v: BrowseResultView, limits: DecodingLimits) -> bool {
        &&& StatusCode::within(v.status_code, limits)
        &&& ByteString::within(v.continuation_point, limits)
        &&& array_within::<ReferenceDescription>(v.references, limits)
    }

    open spec fn decoding(s: Seq<u8>, limits: DecodingLimits) -> Result<
        (BrowseResultView, Seq<u8>),
        StatusCode,
    > {
        browse_result_decoding(s, limits)
    }

    proof fn lemma_round_trip(v: BrowseResultView, rest: Seq<u8>, limits: DecodingLimits) {
        reveal(browse_result_decoding);
        let p0 = StatusCode::encoding(v.status_code);
        let p1 = ByteString::encoding(v.continuation_point);
        let p2 = array_encoding::<ReferenceDescription>(v.references);
        let r2 = p2 + rest;
        let r1 = p1 + r2;
        lemma_concat_assoc(p0 + p1, p2, rest);
        lemma_concat_assoc(p0, p1, r2);
        StatusCode::lemma_round_trip(v.status_code, r1, limits);
        ByteString::lemma_round_trip(v.continuation_point, r2, limits);
        lemma_array_round_trip::<ReferenceDescription>(v.references, rest, limits);
    }

    fn byte_len(&self) -> (r: usize) {
        let ghost v = self@;
        let ghost e0 = StatusCode::encoding(v.status_code);
        let ghost e1 = e0 + ByteString::encoding(v.continuation_point);
        let ghost e2 = e1 + array_encoding::<ReferenceDescription>(v.references);
        let mut size: usize = self.status_code.byte_len();
        size = add_part_len(
            size,
            self.continuation_point.byte_len(),
            Ghost(e0),
            Ghost(ByteString::encoding(v.continuation_point)),
        );
        size = add_part_len(
            size,
            byte_len_array(&self.references),
            Ghost(e1),
            Ghost(array_encoding::<ReferenceDescription>(v.references)),
        );
        size
    }

    fn encode(&self, stream: &mut Vec<u8>) -> (r: EncodingResult<usize>) {
        let start = stream.len();
        let ghost o = stream@;
        let ghost v = self@;
        proof {
            lemma_extends_refl(o);
        }
        write_part(stream, &self.status_code, Ghost(o))?;
        write_part(stream, &self.continuation_point, Ghost(o))?;
        write_array_part(stream, &self.references, Ghost(o))?;
        proof {
            let p0 = StatusCode::encoding(v.status_code);
            let p1 = ByteString::encoding(v.continuation_point);
            let p2 = array_encoding::<ReferenceDescription>(v.references);
            lemma_concat_assoc(o, p0, p1);
            lemma_concat_assoc(o, p0 + p1, p2);
        }
        Ok(stream.len() - start)
    }

    fn decode(stream: &mut ReadStream, limits: &DecodingLimits) -> (r: EncodingResult<Self>) {
        proof {
            reveal(browse_result_decoding);
        }
        let status_code = StatusCode::decode(stream, limits)?;
        let continuation_point = ByteString::decode(stream, limits)?;
        let references: Option<Vec<ReferenceDescription>> = read_array(stream, limits)?;
        Ok(BrowseResult { status_code, continuation_point, references })
    }
}

} // verus!
