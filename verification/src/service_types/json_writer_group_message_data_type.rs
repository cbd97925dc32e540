//! Message settings of a writer group of JSON messages.

use vstd::prelude::*;
use crate::encoding::{
    BinaryEncoder, DecodingLimits, EncodingResult, ReadStream, lemma_extends_refl, write_part,
};
use crate::service_types::json_content_masks::JsonNetworkMessageContentMask;
use crate::status_codes::StatusCode;

verus! {

/// What a writer group puts into the JSON messages it writes.
#[derive(Clone, Debug, PartialEq, Eq)]
pub struct JsonWriterGroupMessageDataType {
    /// The parts that network messages hold.
    pub network_message_content_mask: JsonNetworkMessageContentMask,
}

/// The value of a `JsonWriterGroupMessageDataType`.
pub struct JsonWriterGroupMessageDataTypeView {
    pub network_message_content_mask: JsonNetworkMessageContentMask,
}

impl View for JsonWriterGroupMessageDataType {
    type V = JsonWriterGroupMessageDataTypeView;

    open spec fn view(&self) -> JsonWriterGroupMessageDataTypeView {
        JsonWriterGroupMessageDataTypeView {
            network_message_content_mask: self.network_message_content_mask,
        }
    }
}

/// Wire form of a `JsonWriterGroupMessageDataType`: its fields in the order of their declaration.
pub open spec fn json_writer_group_message_data_type_encoding(v: JsonWriterGroupMessageDataTypeView) -> Seq<u8> {
    JsonNetworkMessageContentMask::encoding(v.network_message_content_mask)
}

/// A `JsonWriterGroupMessageDataType` off the front of `s`: its fields, one behind the other.
#[verifier::opaque]
pub open spec fn json_writer_group_message_data_type_decoding(s: Seq<u8>, limits: DecodingLimits) -> Result<
    (JsonWriterGroupMessageDataTypeView, Seq<u8>),
    StatusCode,
> {
    match JsonNetworkMessageContentMask::decoding(s, limits) {
        Err(e) => Err(e),
        Ok((network_message_content_mask, s)) =>
            Ok((JsonWriterGroupMessageDataTypeView { network_message_content_mask }, s)),
    }
}

impl BinaryEncoder for JsonWriterGroupMessageDataType {
    open spec fn encoding(v: JsonWriterGroupMessageDataTypeView) -> Seq<u8> {
        json_writer_group_message_data_type_encoding(v)
    }

    open spec fn encodable(v: JsonWriterGroupMessageDataTypeView) -> bool {
        &&& JsonNetworkMessageContentMask::encodable(v.network_message_content_mask)
    }

    open spec fn within(v: JsonWriterGroupMessageDataTypeView, limits: DecodingLimits) -> bool {
        &&& JsonNetworkMessageContentMask::within(v.network_message_content_mask, limits)
    }

    open spec fn decoding(s: Seq<u8>, limits: DecodingLimits) -> Result<
        (JsonWriterGroupMessageDataTypeView, Seq<u8>),
        StatusCode,
    > {
        json_writer_group_message_data_type_decoding(s, limits)
    }

    proof fn lemma_round_trip(v: JsonWriterGroupMessageDataTypeView, rest: Seq<u8>, limits: DecodingLimits) {
        reveal(json_writer_group_message_data_type_decoding);
        let p0 = JsonNetworkMessageContentMask::encoding(v.network_message_content_mask);
        JsonNetworkMessageContentMask::lemma_round_trip(v.network_message_content_mask, rest, limits);
    }

    fn byte_len(&self) -> (r: usize) {
        self.network_message_content_mask.byte_len()
    }

    fn encode(&self, stream: &mut Vec<u8>) -> (r: EncodingResult<usize>) {
        let start = stream.len();
        let ghost o = stream@;
        let ghost v = self@;
        proof {
            lemma_extends_refl(o);
        }
        write_part(stream, &self.network_message_content_mask, Ghost(o))?;
        Ok(stream.len() - start)
    }

    fn decode(stream: &mut ReadStream, limits: &DecodingLimits) -> (r: EncodingResult<Self>) {
        proof {
            reveal(json_writer_group_message_data_type_decoding);
        }
        let network_message_content_mask = JsonNetworkMessageContentMask::decode(stream, limits)?;
        Ok(JsonWriterGroupMessageDataType { network_message_content_mask })
    }
}

} // verus!
