//! The request that deletes nodes.

use vstd::prelude::*;
use crate::encoding::{
    BinaryEncoder, DecodingLimits, EncodingResult, ReadStream, add_part_len, array_decoding,
    array_encodable, array_encoding, array_view, array_within, byte_len_array,
    lemma_array_round_trip, lemma_concat_assoc, lemma_extends_refl, read_array, write_array_part,
    write_part,
};
use crate::node_ids::ObjectId;
use crate::service_types::{MessageInfo, RequestHeader, RequestHeaderView};
use crate::service_types::delete_nodes_item::{DeleteNodesItem, DeleteNodesItemView};
use crate::status_codes::StatusCode;

verus! {

/// Deletes one or more nodes from the address space.
#[derive(Clone, Debug, PartialEq, Eq)]
pub struct DeleteNodesRequest {
    /// The header of the request.
    pub request_header: RequestHeader,
    /// The nodes to delete.
    pub nodes_to_delete: Option<Vec<DeleteNodesItem>>,
}

/// The value of a `DeleteNodesRequest`.
pub struct DeleteNodesRequestView {
    pub request_header: RequestHeaderView,
    pub nodes_to_delete: Option<Seq<DeleteNodesItemView>>,
}

impl View for DeleteNodesRequest {
    type V = DeleteNodesRequestView;

    open spec fn view(&self) -> DeleteNodesRequestView {
        DeleteNodesRequestView {
            request_header: self.request_header@,
            nodes_to_delete: array_view(self.nodes_to_delete),
        }
    }
}

impl MessageInfo for DeleteNodesRequest {
    open spec fn message_object_id(&self) -> ObjectId {
        ObjectId::DeleteNodesRequest_Encoding_DefaultBinary
    }

    fn object_id(&self) -> (r: ObjectId) {
        ObjectId::DeleteNodesRequest_Encoding_DefaultBinary
    }
}

/// Wire form of a `DeleteNodesRequest`: its fields in the order of their declaration.
pub open spec fn delete_nodes_request_encoding(v: DeleteNodesRequestView) -> Seq<u8> {
    RequestHeader::encoding(v.request_header)
        + array_encoding::<DeleteNodesItem>(v.nodes_to_delete)
}

/// A `DeleteNodesRequest` off the front of `s`: its fields, one behind the other.
#[verifier::opaque]
pub open spec fn delete_nodes_request_decoding(s: Seq<u8>, limits: DecodingLimits) -> Result<
    (DeleteNodesRequestView, Seq<u8>),
    StatusCode,
> {
    match RequestHeader::decoding(s, limits) {
        Err(e) => Err(e),
        Ok((request_header, s)) =>
            match array_decoding::<DeleteNodesItem>(s, limits) {
                Err(e) => Err(e),
                Ok((nodes_to_delete, s)) =>
                    Ok((DeleteNodesRequestView { request_header, nodes_to_delete }, s)),
            },
    }
}

impl BinaryEncoder for DeleteNodesRequest {
    open spec fn encoding(v: DeleteNodesRequestView) -> Seq<u8> {
        delete_nodes_request_encoding(v)
    }

    open spec fn encodable(v: DeleteNodesRequestView) -> bool {
        &&& RequestHeader::encodable(v.request_header)
        &&& array_encodable::<DeleteNodesItem>(v.nodes_to_delete)
    }

    open spec fn within(v: DeleteNodesRequestView, limits: DecodingLimits) -> bool {
        &&& RequestHeader::within(v.request_header, limits)
        &&& array_within::<DeleteNodesItem>(v.nodes_to_delete, limits)
    }

    open spec fn decoding(s: Seq<u8>, limits: DecodingLimits) -> Result<
        (DeleteNodesRequestView, Seq<u8>),
        StatusCode,
    > {
        delete_nodes_request_decoding(s, limits)
    }

    proof fn lemma_round_trip(v: DeleteNodesRequestView, rest: Seq<u8>, limits: DecodingLimits) {
        reveal(delete_nodes_request_decoding);
        let p0 = RequestHeader::encoding(v.request_header);
        let p1 = array_encoding::<DeleteNodesItem>(v.nodes_to_delete);
        let r1 = p1 + rest;
        lemma_concat_assoc(p0, p1, rest);
        RequestHeader::lemma_round_trip(v.request_header, r1, limits);
        lemma_array_round_trip::<DeleteNodesItem>(v.nodes_to_delete, rest, limits);
    }

    fn byte_len(&self) -> (r: usize) {
        let ghost v = self@;
        let ghost e0 = RequestHeader::encoding(v.request_header);
        let ghost e1 = e0 + array_encoding::<DeleteNodesItem>(v.nodes_to_delete);
        let mut size: usize = self.request_header.byte_len();
        size = add_part_len(
            size,
            byte_len_array(&self.nodes_to_delete),
            Ghost(e0),
            Ghost(array_encoding::<DeleteNodesItem>(v.nodes_to_delete)),
        );
        size
    }

    fn encode(&self, stream: &mut Vec<u8>) -> (r: EncodingResult<usize>) {
        let start = stream.len();
        let ghost o = stream@;
        let ghost v = self@;
        proof {
            lemma_extends_refl(o);
        }
        write_part(stream, &self.request_header, Ghost(o))?;
        write_array_part(stream, &self.nodes_to_delete, Ghost(o))?;
        proof {
            let p0 = RequestHeader::encoding(v.request_header);
            let p1 = array_encoding::<DeleteNodesItem>(v.nodes_to_delete);
            lemma_concat_assoc(o, p0, p1);
        }
        Ok(stream.len() - start)
    }

    fn decode(stream: &mut ReadStream, limits: &DecodingLimits) -> (r: EncodingResult<Self>) {
        proof {
            reveal(delete_nodes_request_decoding);
        }
        let request_header = RequestHeader::decode(stream, limits)?;
        let nodes_to_delete: Option<Vec<DeleteNodesItem>> = read_array(stream, limits)?;
        Ok(DeleteNodesRequest { request_header, nodes_to_delete })
    }
}

} // verus!
