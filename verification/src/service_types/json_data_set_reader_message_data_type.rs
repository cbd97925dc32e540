//! Message settings of a reader of JSON data set messages.

use vstd::prelude::*;
use crate::encoding::{
    BinaryEncoder, DecodingLimits, EncodingResult, ReadStream, add_part_len, lemma_concat_assoc,
    lemma_extends_refl, write_part,
};
use crate::service_types::json_content_masks::{
    JsonDataSetMessageContentMask, JsonNetworkMessageContentMask,
};
use crate::status_codes::StatusCode;

verus! {

/// What a reader expects of the JSON messages it reads.
#[derive(Clone, Debug, PartialEq, Eq)]
pub struct JsonDataSetReaderMessageDataType {
    /// The parts that network messages hold.
    pub network_message_content_mask: JsonNetworkMessageContentMask,
    /// The parts that data set messages hold.
    pub data_set_message_content_mask: JsonDataSetMessageContentMask,
}

/// The value of a `JsonDataSetReaderMessageDataType`.
pub struct JsonDataSetReaderMessageDataTypeView {
    pub network_message_content_mask: JsonNetworkMessageContentMask,
    pub data_set_message_content_mask: JsonDataSetMessageContentMask,
}

impl View for JsonDataSetReaderMessageDataType {
    type V = JsonDataSetReaderMessageDataTypeView;

    open spec fn view(&self) -> JsonDataSetReaderMessageDataTypeView {
        JsonDataSetReaderMessageDataTypeView {
            network_message_content_mask: self.network_message_content_mask,
            data_set_message_content_mask: self.data_set_message_content_mask,
        }
    }
}

/// Wire form of a `JsonDataSetReaderMessageDataType`: its fields in the order of their declaration.
pub open spec fn json_data_set_reader_message_data_type_encoding(v: JsonDataSetReaderMessageDataTypeView) -> Seq<u8> {
    JsonNetworkMessageContentMask::encoding(v.network_message_content_mask)
        + JsonDataSetMessageContentMask::encoding(v.data_set_message_content_mask)
}

/// A `JsonDataSetReaderMessageDataType` off the front of `s`: its fields, one behind the other.
#[verifier::opaque]
pub open spec fn json_data_set_reader_message_data_type_decoding(s: Seq<u8>, limits: DecodingLimits) -> Result<
    (JsonDataSetReaderMessageDataTypeView, Seq<u8>),
    StatusCode,
> {
    match JsonNetworkMessageContentMask::decoding(s, limits) {
        Err(e) => Err(e),
        Ok((network_message_content_mask, s)) =>
            match JsonDataSetMessageContentMask::decoding(s, limits) {
                Err(e) => Err(e),
                Ok((data_set_message_content_mask, s)) =>
                    Ok((
                        JsonDataSetReaderMessageDataTypeView {
                            network_message_content_mask,
                            data_set_message_content_mask,
                        },
                        s,
                    )),
            },
    }
}

impl BinaryEncoder for JsonDataSetReaderMessageDataType {
    open spec fn encoding(v: JsonDataSetReaderMessageDataTypeView) -> Seq<u8> {
        json_data_set_reader_message_data_type_encoding(v)
    }

    open spec fn encodable(v: JsonDataSetReaderMessageDataTypeView) -> bool {
        &&& JsonNetworkMessageContentMask::encodable(v.network_message_content_mask)
        &&& JsonDataSetMessageContentMask::encodable(v.data_set_message_content_mask)
    }

    open spec fn within(v: JsonDataSetReaderMessageDataTypeView, limits: DecodingLimits) -> bool {
        &&& JsonNetworkMessageContentMask::within(v.network_message_content_mask, limits)
        &&& JsonDataSetMessageContentMask::within(v.data_set_message_content_mask, limits)
    }

    open spec fn decoding(s: Seq<u8>, limits: DecodingLimits) -> Result<
        (JsonDataSetReaderMessageDataTypeView, Seq<u8>),
        StatusCode,
    > {
        json_data_set_reader_message_data_type_decoding(s, limits)
    }

    proof fn lemma_round_trip(v: JsonDataSetReaderMessageDataTypeView, rest: Seq<u8>, limits: DecodingLimits) {
        reveal(json_data_set_reader_message_data_type_decoding);
        let p0 = JsonNetworkMessageContentMask::encoding(v.network_message_content_mask);
        let p1 = JsonDataSetMessageContentMask::encoding(v.data_set_message_content_mask);
        let r1 = p1 + rest;
        lemma_concat_assoc(p0, p1, rest);
        JsonNetworkMessageContentMask::lemma_round_trip(v.network_message_content_mask, r1, limits);
        JsonDataSetMessageContentMask::lemma_round_trip(v.data_set_message_content_mask, rest, limits);
    }

    fn byte_len(&self) -> (r: usize) {
        let ghost v = self@;
        let ghost e0 = JsonNetworkMessageContentMask::encoding(v.network_message_content_mask);
        let ghost e1 = e0 + JsonDataSetMessageContentMask::encoding(v.data_set_message_content_mask);
        let mut size: usize = self.network_message_content_mask.byte_len();
        size = add_part_len(
            size,
            self.data_set_message_content_mask.byte_len(),
            Ghost(e0),
            Ghost(JsonDataSetMessageContentMask::encoding(v.data_set_message_content_mask)),
        );
        size
    }

    fn encode(&self, stream: &mut Vec<u8>) -> (r: EncodingResult<usize>) {
        let start = stream.len();
        let ghost o = stream@;
        let ghost v = self@;
        proof {
            lemma_extends_refl(o);
        }
        write_part(stream, &self.network_message_content_mask, Ghost(o))?;
        write_part(stream, &self.data_set_message_content_mask, Ghost(o))?;
        proof {
            let p0 = JsonNetworkMessageContentMask::encoding(v.network_message_content_mask);
            let p1 = JsonDataSetMessageContentMask::encoding(v.data_set_message_content_mask);
            lemma_concat_assoc(o, p0, p1);
        }
        Ok(stream.len() - start)
    }

    fn decode(stream: &mut ReadStream, limits: &DecodingLimits) -> (r: EncodingResult<Self>) {
        proof {
            reveal(json_data_set_reader_message_data_type_decoding);
        }
        let network_message_content_mask = JsonNetworkMessageContentMask::decode(stream, limits)?;
        let data_set_message_content_mask = JsonDataSetMessageContentMask::decode(stream, limits)?;
        Ok(
            JsonDataSetReaderMessageDataType {
                network_message_content_mask,
                data_set_message_content_mask,
            },
        )
    }
}

} // verus!
