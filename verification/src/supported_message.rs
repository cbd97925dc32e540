//! The messages that the stack knows, as one type.

use vstd::prelude::*;
use crate::encoding::{BinaryEncoder, DecodingLimits, EncodingResult, ReadStream};
use crate::node_id::NodeId;
use crate::node_ids::ObjectId;
use crate::service_types::MessageInfo;
use crate::service_types::open_secure_channel_request::{OpenSecureChannelRequest, OpenSecureChannelRequestView};
use crate::service_types::open_secure_channel_response::{OpenSecureChannelResponse, OpenSecureChannelResponseView};
use crate::service_types::close_secure_channel_request::{CloseSecureChannelRequest, CloseSecureChannelRequestView};
use crate::service_types::close_session_request::{CloseSessionRequest, CloseSessionRequestView};
use crate::service_types::browse_next_request::{BrowseNextRequest, BrowseNextRequestView};
use crate::service_types::create_session_request::{CreateSessionRequest, CreateSessionRequestView};
use crate::service_types::browse_next_response::{BrowseNextResponse, BrowseNextResponseView};
use crate::service_types::delete_nodes_request::{DeleteNodesRequest, DeleteNodesRequestView};
use crate::service_types::delete_nodes_response::{DeleteNodesResponse, DeleteNodesResponseView};
use crate::service_types::publish_request::{PublishRequest, PublishRequestView};
use crate::service_types::set_triggering_response::{SetTriggeringResponse, SetTriggeringResponseView};
use crate::status_codes::StatusCode;

verus! {

/// A request or a response of one of the kinds that the stack knows.
#[derive(Debug, Clone, PartialEq, Eq)]
pub enum SupportedMessage {
    OpenSecureChannelRequest(Box<OpenSecureChannelRequest>),
    OpenSecureChannelResponse(Box<OpenSecureChannelResponse>),
    CloseSecureChannelRequest(Box<CloseSecureChannelRequest>),
    CloseSessionRequest(Box<CloseSessionRequest>),
    BrowseNextRequest(Box<BrowseNextRequest>),
    CreateSessionRequest(Box<CreateSessionRequest>),
    BrowseNextResponse(Box<BrowseNextResponse>),
    DeleteNodesRequest(Box<DeleteNodesRequest>),
    DeleteNodesResponse(Box<DeleteNodesResponse>),
    PublishRequest(Box<PublishRequest>),
    SetTriggeringResponse(Box<SetTriggeringResponse>),
}

/// The value of a `SupportedMessage`.
pub enum SupportedMessageView {
    OpenSecureChannelRequest(OpenSecureChannelRequestView),
    OpenSecureChannelResponse(OpenSecureChannelResponseView),
    CloseSecureChannelRequest(CloseSecureChannelRequestView),
    CloseSessionRequest(CloseSessionRequestView),
    BrowseNextRequest(BrowseNextRequestView),
    CreateSessionRequest(CreateSessionRequestView),
    BrowseNextResponse(BrowseNextResponseView),
    DeleteNodesRequest(DeleteNodesRequestView),
    DeleteNodesResponse(DeleteNodesResponseView),
    PublishRequest(PublishRequestView),
    SetTriggeringResponse(SetTriggeringResponseView),
}

impl View for SupportedMessage {
    type V = SupportedMessageView;

    open spec fn view(&self) -> SupportedMessageView {
        match self {
            SupportedMessage::OpenSecureChannelRequest(m) => SupportedMessageView::OpenSecureChannelRequest(m@),
            SupportedMessage::OpenSecureChannelResponse(m) => SupportedMessageView::OpenSecureChannelResponse(m@),
            SupportedMessage::CloseSecureChannelRequest(m) => SupportedMessageView::CloseSecureChannelRequest(m@),
            SupportedMessage::CloseSessionRequest(m) => SupportedMessageView::CloseSessionRequest(m@),
            SupportedMessage::BrowseNextRequest(m) => SupportedMessageView::BrowseNextRequest(m@),
            SupportedMessage::CreateSessionRequest(m) => SupportedMessageView::CreateSessionRequest(m@),
            SupportedMessage::BrowseNextResponse(m) => SupportedMessageView::BrowseNextResponse(m@),
            SupportedMessage::DeleteNodesRequest(m) => SupportedMessageView::DeleteNodesRequest(m@),
            SupportedMessage::DeleteNodesResponse(m) => SupportedMessageView::DeleteNodesResponse(m@),
            SupportedMessage::PublishRequest(m) => SupportedMessageView::PublishRequest(m@),
            SupportedMessage::SetTriggeringResponse(m) => SupportedMessageView::SetTriggeringResponse(m@),
        }
    }
}

impl SupportedMessageView {
    /// The handle that ties a response to its request: the handle in the
    /// header of the message.
    pub open spec fn request_handle(self) -> u32 {
        match self {
            SupportedMessageView::OpenSecureChannelRequest(m) => m.request_header.request_handle,
            SupportedMessageView::OpenSecureChannelResponse(m) => m.response_header.request_handle,
            SupportedMessageView::CloseSecureChannelRequest(m) => m.request_header.request_handle,
            SupportedMessageView::CloseSessionRequest(m) => m.request_header.request_handle,
            SupportedMessageView::BrowseNextRequest(m) => m.request_header.request_handle,
            SupportedMessageView::CreateSessionRequest(m) => m.request_header.request_handle,
            SupportedMessageView::BrowseNextResponse(m) => m.response_header.request_handle,
            SupportedMessageView::DeleteNodesRequest(m) => m.request_header.request_handle,
            SupportedMessageView::DeleteNodesResponse(m) => m.response_header.request_handle,
            SupportedMessageView::PublishRequest(m) => m.request_header.request_handle,
            SupportedMessageView::SetTriggeringResponse(m) => m.response_header.request_handle,
        }
    }

    /// The object that names the binary encoding of the message.
    pub open spec fn object_id(self) -> ObjectId {
        match self {
            SupportedMessageView::OpenSecureChannelRequest(_) => ObjectId::OpenSecureChannelRequest_Encoding_DefaultBinary,
            SupportedMessageView::OpenSecureChannelResponse(_) => ObjectId::OpenSecureChannelResponse_Encoding_DefaultBinary,
            SupportedMessageView::CloseSecureChannelRequest(_) => ObjectId::CloseSecureChannelRequest_Encoding_DefaultBinary,
            SupportedMessageView::CloseSessionRequest(_) => ObjectId::CloseSessionRequest_Encoding_DefaultBinary,
            SupportedMessageView::BrowseNextRequest(_) => ObjectId::BrowseNextRequest_Encoding_DefaultBinary,
            SupportedMessageView::CreateSessionRequest(_) => ObjectId::CreateSessionRequest_Encoding_DefaultBinary,
            SupportedMessageView::BrowseNextResponse(_) => ObjectId::BrowseNextResponse_Encoding_DefaultBinary,
            SupportedMessageView::DeleteNodesRequest(_) => ObjectId::DeleteNodesRequest_Encoding_DefaultBinary,
            SupportedMessageView::DeleteNodesResponse(_) => ObjectId::DeleteNodesResponse_Encoding_DefaultBinary,
            SupportedMessageView::PublishRequest(_) => ObjectId::PublishRequest_Encoding_DefaultBinary,
            SupportedMessageView::SetTriggeringResponse(_) => ObjectId::SetTriggeringResponse_Encoding_DefaultBinary,
        }
    }

    /// The message is a request.
    pub open spec fn is_request(self) -> bool {
        match self {
            SupportedMessageView::OpenSecureChannelRequest(_) => true,
            SupportedMessageView::OpenSecureChannelResponse(_) => false,
            SupportedMessageView::CloseSecureChannelRequest(_) => true,
            SupportedMessageView::CloseSessionRequest(_) => true,
            SupportedMessageView::BrowseNextRequest(_) => true,
            SupportedMessageView::CreateSessionRequest(_) => true,
            SupportedMessageView::BrowseNextResponse(_) => false,
            SupportedMessageView::DeleteNodesRequest(_) => true,
            SupportedMessageView::DeleteNodesResponse(_) => false,
            SupportedMessageView::PublishRequest(_) => true,
            SupportedMessageView::SetTriggeringResponse(_) => false,
        }
    }

    /// Wire form of the message: that of the request or response it is.
    pub open spec fn encoding(self) -> Seq<u8> {
        match self {
            SupportedMessageView::OpenSecureChannelRequest(m) => OpenSecureChannelRequest::encoding(m),
            SupportedMessageView::OpenSecureChannelResponse(m) => OpenSecureChannelResponse::encoding(m),
            SupportedMessageView::CloseSecureChannelRequest(m) => CloseSecureChannelRequest::encoding(m),
            SupportedMessageView::CloseSessionRequest(m) => CloseSessionRequest::encoding(m),
            SupportedMessageView::BrowseNextRequest(m) => BrowseNextRequest::encoding(m),
            SupportedMessageView::CreateSessionRequest(m) => CreateSessionRequest::encoding(m),
            SupportedMessageView::BrowseNextResponse(m) => BrowseNextResponse::encoding(m),
            SupportedMessageView::DeleteNodesRequest(m) => DeleteNodesRequest::encoding(m),
            SupportedMessageView::DeleteNodesResponse(m) => DeleteNodesResponse::encoding(m),
            SupportedMessageView::PublishRequest(m) => PublishRequest::encoding(m),
            SupportedMessageView::SetTriggeringResponse(m) => SetTriggeringResponse::encoding(m),
        }
    }

    pub open spec fn encodable(self) -> bool {
        match self {
            SupportedMessageView::OpenSecureChannelRequest(m) => OpenSecureChannelRequest::encodable(m),
            SupportedMessageView::OpenSecureChannelResponse(m) => OpenSecureChannelResponse::encodable(m),
            SupportedMessageView::CloseSecureChannelRequest(m) => CloseSecureChannelRequest::encodable(m),
            SupportedMessageView::CloseSessionRequest(m) => CloseSessionRequest::encodable(m),
            SupportedMessageView::BrowseNextRequest(m) => BrowseNextRequest::encodable(m),
            SupportedMessageView::CreateSessionRequest(m) => CreateSessionRequest::encodable(m),
            SupportedMessageView::BrowseNextResponse(m) => BrowseNextResponse::encodable(m),
            SupportedMessageView::DeleteNodesRequest(m) => DeleteNodesRequest::encodable(m),
            SupportedMessageView::DeleteNodesResponse(m) => DeleteNodesResponse::encodable(m),
            SupportedMessageView::PublishRequest(m) => PublishRequest::encodable(m),
            SupportedMessageView::SetTriggeringResponse(m) => SetTriggeringResponse::encodable(m),
        }
    }

    pub open spec fn within(self, limits: DecodingLimits) -> bool {
        match self {
            SupportedMessageView::OpenSecureChannelRequest(m) => OpenSecureChannelRequest::within(m, limits),
            SupportedMessageView::OpenSecureChannelResponse(m) => OpenSecureChannelResponse::within(m, limits),
            SupportedMessageView::CloseSecureChannelRequest(m) => CloseSecureChannelRequest::within(m, limits),
            SupportedMessageView::CloseSessionRequest(m) => CloseSessionRequest::within(m, limits),
            SupportedMessageView::BrowseNextRequest(m) => BrowseNextRequest::within(m, limits),
            SupportedMessageView::CreateSessionRequest(m) => CreateSessionRequest::within(m, limits),
            SupportedMessageView::BrowseNextResponse(m) => BrowseNextResponse::within(m, limits),
            SupportedMessageView::DeleteNodesRequest(m) => DeleteNodesRequest::within(m, limits),
            SupportedMessageView::DeleteNodesResponse(m) => DeleteNodesResponse::within(m, limits),
            SupportedMessageView::PublishRequest(m) => PublishRequest::within(m, limits),
            SupportedMessageView::SetTriggeringResponse(m) => SetTriggeringResponse::within(m, limits),
        }
    }
}

/// The message with the binary encoding that `object_id` names, off the front
/// of `s`. An object that names no message that the stack knows is refused.
pub open spec fn message_decoding(object_id: ObjectId, s: Seq<u8>, limits: DecodingLimits) -> Result<
    (SupportedMessageView, Seq<u8>),
    StatusCode,
> {
    match object_id {
        ObjectId::OpenSecureChannelRequest_Encoding_DefaultBinary => match OpenSecureChannelRequest::decoding(s, limits) {
            Err(e) => Err(e),
            Ok((m, s)) => Ok((SupportedMessageView::OpenSecureChannelRequest(m), s)),
        },
        ObjectId::OpenSecureChannelResponse_Encoding_DefaultBinary => match OpenSecureChannelResponse::decoding(s, limits) {
            Err(e) => Err(e),
            Ok((m, s)) => Ok((SupportedMessageView::OpenSecureChannelResponse(m), s)),
        },
        ObjectId::CloseSecureChannelRequest_Encoding_DefaultBinary => match CloseSecureChannelRequest::decoding(s, limits) {
            Err(e) => Err(e),
            Ok((m, s)) => Ok((SupportedMessageView::CloseSecureChannelRequest(m), s)),
        },
        ObjectId::CloseSessionRequest_Encoding_DefaultBinary => match CloseSessionRequest::decoding(s, limits) {
            Err(e) => Err(e),
            Ok((m, s)) => Ok((SupportedMessageView::CloseSessionRequest(m), s)),
        },
        ObjectId::BrowseNextRequest_Encoding_DefaultBinary => match BrowseNextRequest::decoding(s, limits) {
            Err(e) => Err(e),
            Ok((m, s)) => Ok((SupportedMessageView::BrowseNextRequest(m), s)),
        },
        ObjectId::CreateSessionRequest_Encoding_DefaultBinary => match CreateSessionRequest::decoding(s, limits) {
            Err(e) => Err(e),
            Ok((m, s)) => Ok((SupportedMessageView::CreateSessionRequest(m), s)),
        },
        ObjectId::BrowseNextResponse_Encoding_DefaultBinary => match BrowseNextResponse::decoding(s, limits) {
            Err(e) => Err(e),
            Ok((m, s)) => Ok((SupportedMessageView::BrowseNextResponse(m), s)),
        },
        ObjectId::DeleteNodesRequest_Encoding_DefaultBinary => match DeleteNodesRequest::decoding(s, limits) {
            Err(e) => Err(e),
            Ok((m, s)) => Ok((SupportedMessageView::DeleteNodesRequest(m), s)),
        },
        ObjectId::DeleteNodesResponse_Encoding_DefaultBinary => match DeleteNodesResponse::decoding(s, limits) {
            Err(e) => Err(e),
            Ok((m, s)) => Ok((SupportedMessageView::DeleteNodesResponse(m), s)),
        },
        ObjectId::PublishRequest_Encoding_DefaultBinary => match PublishRequest::decoding(s, limits) {
            Err(e) => Err(e),
            Ok((m, s)) => Ok((SupportedMessageView::PublishRequest(m), s)),
        },
        ObjectId::SetTriggeringResponse_Encoding_DefaultBinary => match SetTriggeringResponse::decoding(s, limits) {
            Err(e) => Err(e),
            Ok((m, s)) => Ok((SupportedMessageView::SetTriggeringResponse(m), s)),
        },
        _ => Err(StatusCode::BadServiceUnsupported),
    }
}

/// A message is read back from its wire form under the object that names its
/// encoding.
pub proof fn lemma_message_round_trip(m: SupportedMessageView, rest: Seq<u8>, limits: DecodingLimits)
    requires
        m.encodable(),
        m.within(limits),
    ensures
        message_decoding(m.object_id(), m.encoding() + rest, limits) == Ok::<
            (SupportedMessageView, Seq<u8>),
            StatusCode,
        >((m, rest)),
{
    match m {
        SupportedMessageView::OpenSecureChannelRequest(x) => {
            OpenSecureChannelRequest::lemma_round_trip(x, rest, limits);
        },
        SupportedMessageView::OpenSecureChannelResponse(x) => {
            OpenSecureChannelResponse::lemma_round_trip(x, rest, limits);
        },
        SupportedMessageView::CloseSecureChannelRequest(x) => {
            CloseSecureChannelRequest::lemma_round_trip(x, rest, limits);
        },
        SupportedMessageView::CloseSessionRequest(x) => {
            CloseSessionRequest::lemma_round_trip(x, rest, limits);
        },
        SupportedMessageView::BrowseNextRequest(x) => {
            BrowseNextRequest::lemma_round_trip(x, rest, limits);
        },
        SupportedMessageView::CreateSessionRequest(x) => {
            CreateSessionRequest::lemma_round_trip(x, rest, limits);
        },
        SupportedMessageView::BrowseNextResponse(x) => {
            BrowseNextResponse::lemma_round_trip(x, rest, limits);
        },
        SupportedMessageView::DeleteNodesRequest(x) => {
            DeleteNodesRequest::lemma_round_trip(x, rest, limits);
        },
        SupportedMessageView::DeleteNodesResponse(x) => {
            DeleteNodesResponse::lemma_round_trip(x, rest, limits);
        },
        SupportedMessageView::PublishRequest(x) => {
            PublishRequest::lemma_round_trip(x, rest, limits);
        },
        SupportedMessageView::SetTriggeringResponse(x) => {
            SetTriggeringResponse::lemma_round_trip(x, rest, limits);
        },
    }
}

impl SupportedMessage {
    /// The handle that ties a response to its request.
    pub fn request_handle(&self) -> (r: u32)
        ensures
            r == self@.request_handle(),
    {
        match self {
            SupportedMessage::OpenSecureChannelRequest(m) => m.request_header.request_handle,
            SupportedMessage::OpenSecureChannelResponse(m) => m.response_header.request_handle,
            SupportedMessage::CloseSecureChannelRequest(m) => m.request_header.request_handle,
            SupportedMessage::CloseSessionRequest(m) => m.request_header.request_handle,
            SupportedMessage::BrowseNextRequest(m) => m.request_header.request_handle,
            SupportedMessage::CreateSessionRequest(m) => m.request_header.request_handle,
            SupportedMessage::BrowseNextResponse(m) => m.response_header.request_handle,
            SupportedMessage::DeleteNodesRequest(m) => m.request_header.request_handle,
            SupportedMessage::DeleteNodesResponse(m) => m.response_header.request_handle,
            SupportedMessage::PublishRequest(m) => m.request_header.request_handle,
            SupportedMessage::SetTriggeringResponse(m) => m.response_header.request_handle,
        }
    }

    /// The object that names the binary encoding of the message.
    pub fn object_id(&self) -> (r: ObjectId)
        ensures
            r == self@.object_id(),
    {
        match self {
            SupportedMessage::OpenSecureChannelRequest(m) => m.object_id(),
            SupportedMessage::OpenSecureChannelResponse(m) => m.object_id(),
            SupportedMessage::CloseSecureChannelRequest(m) => m.object_id(),
            SupportedMessage::CloseSessionRequest(m) => m.object_id(),
            SupportedMessage::BrowseNextRequest(m) => m.object_id(),
            SupportedMessage::CreateSessionRequest(m) => m.object_id(),
            SupportedMessage::BrowseNextResponse(m) => m.object_id(),
            SupportedMessage::DeleteNodesRequest(m) => m.object_id(),
            SupportedMessage::DeleteNodesResponse(m) => m.object_id(),
            SupportedMessage::PublishRequest(m) => m.object_id(),
            SupportedMessage::SetTriggeringResponse(m) => m.object_id(),
        }
    }

    /// The node id that names the binary encoding of the message.
    pub fn node_id(&self) -> (r: NodeId)
        ensures
            r@ == crate::node_id::numeric_node_id(0, self@.object_id().spec_value()),
    {
        self.object_id().as_node_id()
    }

    /// Tests whether the message is a request.
    pub fn is_request(&self) -> (r: bool)
        ensures
            r == self@.is_request(),
    {
        match self {
            SupportedMessage::OpenSecureChannelRequest(_) => true,
            SupportedMessage::OpenSecureChannelResponse(_) => false,
            SupportedMessage::CloseSecureChannelRequest(_) => true,
            SupportedMessage::CloseSessionRequest(_) => true,
            SupportedMessage::BrowseNextRequest(_) => true,
            SupportedMessage::CreateSessionRequest(_) => true,
            SupportedMessage::BrowseNextResponse(_) => false,
            SupportedMessage::DeleteNodesRequest(_) => true,
            SupportedMessage::DeleteNodesResponse(_) => false,
            SupportedMessage::PublishRequest(_) => true,
            SupportedMessage::SetTriggeringResponse(_) => false,
        }
    }

    /// Size of the wire form of the message.
    #[verifier::rlimit(40)]
    pub fn byte_len(&self) -> (r: usize)
        ensures
            r == crate::encoding::saturated(self@.encoding().len()),
    {
        match self {
            SupportedMessage::OpenSecureChannelRequest(m) => {
                assert(self@ == SupportedMessageView::OpenSecureChannelRequest(m@));
                m.byte_len()
            },
            SupportedMessage::OpenSecureChannelResponse(m) => {
                assert(self@ == SupportedMessageView::OpenSecureChannelResponse(m@));
                m.byte_len()
            },
            SupportedMessage::CloseSecureChannelRequest(m) => {
                assert(self@ == SupportedMessageView::CloseSecureChannelRequest(m@));
                m.byte_len()
            },
            SupportedMessage::CloseSessionRequest(m) => {
                assert(self@ == SupportedMessageView::CloseSessionRequest(m@));
                m.byte_len()
            },
            SupportedMessage::BrowseNextRequest(m) => {
                assert(self@ == SupportedMessageView::BrowseNextRequest(m@));
                m.byte_len()
            },
            SupportedMessage::CreateSessionRequest(m) => {
                assert(self@ == SupportedMessageView::CreateSessionRequest(m@));
                m.byte_len()
            },
            SupportedMessage::BrowseNextResponse(m) => {
                assert(self@ == SupportedMessageView::BrowseNextResponse(m@));
                m.byte_len()
            },
            SupportedMessage::DeleteNodesRequest(m) => {
                assert(self@ == SupportedMessageView::DeleteNodesRequest(m@));
                m.byte_len()
            },
            SupportedMessage::DeleteNodesResponse(m) => {
                assert(self@ == SupportedMessageView::DeleteNodesResponse(m@));
                m.byte_len()
            },
            SupportedMessage::PublishRequest(m) => {
                assert(self@ == SupportedMessageView::PublishRequest(m@));
                m.byte_len()
            },
            SupportedMessage::SetTriggeringResponse(m) => {
                assert(self@ == SupportedMessageView::SetTriggeringResponse(m@));
                m.byte_len()
            },
        }
    }

    /// Appends the wire form of the message to the stream.
    pub fn encode(&self, stream: &mut Vec<u8>) -> (r: EncodingResult<usize>)
        ensures
            self@.encodable() ==> (r matches Ok(n) && n == self@.encoding().len()) && final(stream)@
                == old(stream)@ + self@.encoding(),
            !self@.encodable() ==> r == Err::<usize, StatusCode>(
                StatusCode::BadEncodingLimitsExceeded,
            ) && crate::encoding::extends(final(stream)@, old(stream)@),
    {
        match self {
            SupportedMessage::OpenSecureChannelRequest(m) => m.encode(stream),
            SupportedMessage::OpenSecureChannelResponse(m) => m.encode(stream),
            SupportedMessage::CloseSecureChannelRequest(m) => m.encode(stream),
            SupportedMessage::CloseSessionRequest(m) => m.encode(stream),
            SupportedMessage::BrowseNextRequest(m) => m.encode(stream),
            SupportedMessage::CreateSessionRequest(m) => m.encode(stream),
            SupportedMessage::BrowseNextResponse(m) => m.encode(stream),
            SupportedMessage::DeleteNodesRequest(m) => m.encode(stream),
            SupportedMessage::DeleteNodesResponse(m) => m.encode(stream),
            SupportedMessage::PublishRequest(m) => m.encode(stream),
            SupportedMessage::SetTriggeringResponse(m) => m.encode(stream),
        }
    }

    /// Reads the message with the binary encoding that `object_id` names from
    /// the stream.
    pub fn decode_by_object_id(
        stream: &mut ReadStream,
        object_id: ObjectId,
        limits: &DecodingLimits,
    ) -> (r: EncodingResult<SupportedMessage>)
        ensures
            match message_decoding(object_id, old(stream)@, *limits) {
                Ok((m, rest)) => r is Ok && r.unwrap()@ == m && final(stream)@ == rest,
                Err(e) => r matches Err(x) && x == e,
            },
    {
        match object_id {
            ObjectId::OpenSecureChannelRequest_Encoding_DefaultBinary => Ok(
                SupportedMessage::OpenSecureChannelRequest(Box::new(OpenSecureChannelRequest::decode(stream, limits)?)),
            ),
            ObjectId::OpenSecureChannelResponse_Encoding_DefaultBinary => Ok(
                SupportedMessage::OpenSecureChannelResponse(Box::new(OpenSecureChannelResponse::decode(stream, limits)?)),
            ),
            ObjectId::CloseSecureChannelRequest_Encoding_DefaultBinary => Ok(
                SupportedMessage::CloseSecureChannelRequest(Box::new(CloseSecureChannelRequest::decode(stream, limits)?)),
            ),
            ObjectId::CloseSessionRequest_Encoding_DefaultBinary => Ok(
                SupportedMessage::CloseSessionRequest(Box::new(CloseSessionRequest::decode(stream, limits)?)),
            ),
            ObjectId::BrowseNextRequest_Encoding_DefaultBinary => Ok(
                SupportedMessage::BrowseNextRequest(Box::new(BrowseNextRequest::decode(stream, limits)?)),
            ),
            ObjectId::CreateSessionRequest_Encoding_DefaultBinary => Ok(
                SupportedMessage::CreateSessionRequest(Box::new(CreateSessionRequest::decode(stream, limits)?)),
            ),
            ObjectId::BrowseNextResponse_Encoding_DefaultBinary => Ok(
                SupportedMessage::BrowseNextResponse(Box::new(BrowseNextResponse::decode(stream, limits)?)),
            ),
            ObjectId::DeleteNodesRequest_Encoding_DefaultBinary => Ok(
                SupportedMessage::DeleteNodesRequest(Box::new(DeleteNodesRequest::decode(stream, limits)?)),
            ),
            ObjectId::DeleteNodesResponse_Encoding_DefaultBinary => Ok(
                SupportedMessage::DeleteNodesResponse(Box::new(DeleteNodesResponse::decode(stream, limits)?)),
            ),
            ObjectId::PublishRequest_Encoding_DefaultBinary => Ok(
                SupportedMessage::PublishRequest(Box::new(PublishRequest::decode(stream, limits)?)),
            ),
            ObjectId::SetTriggeringResponse_Encoding_DefaultBinary => Ok(
                SupportedMessage::SetTriggeringResponse(Box::new(SetTriggeringResponse::decode(stream, limits)?)),
            ),
            _ => Err(StatusCode::BadServiceUnsupported),
        }
    }
}

} // verus!
