//! Extension objects: values of a type known by its node id, carried in
//! encoded form.

use vstd::prelude::*;
use crate::byte_string::ByteString;
use crate::encoding::{
    BinaryEncoder, DecodingLimits, EncodingResult, ReadStream, add_len, lemma_concat_assoc,
    lemma_extends_refl, read_u8, write_part,
};
use crate::node_id::{NodeId, NodeIdView, numeric_node_id};
use crate::status_codes::StatusCode;
use crate::string::UAString;

verus! {

/// The encoded form that an extension object carries.
#[derive(Debug, PartialEq, Eq)]
pub enum ExtensionObjectEncoding {
    /// No body.
    Empty,
    /// The body in binary form.
    ByteString(ByteString),
    /// The body as XML text.
    XmlElement(UAString),
}

/// The value of an `ExtensionObjectEncoding`.
pub enum ExtensionObjectEncodingView {
    Empty,
    ByteString(Option<Seq<u8>>),
    XmlElement(Option<Seq<char>>),
}

impl View for ExtensionObjectEncoding {
    type V = ExtensionObjectEncodingView;

    open spec fn view(&self) -> ExtensionObjectEncodingView {
        match self {
            ExtensionObjectEncoding::Empty => ExtensionObjectEncodingView::Empty,
            ExtensionObjectEncoding::ByteString(v) => ExtensionObjectEncodingView::ByteString(v@),
            ExtensionObjectEncoding::XmlElement(v) => ExtensionObjectEncodingView::XmlElement(v@),
        }
    }
}

/// A value of a structured type in encoded form, with the node id that names
/// its type.
#[derive(Debug, PartialEq, Eq)]
pub struct ExtensionObject {
    pub node_id: NodeId,
    pub body: ExtensionObjectEncoding,
}

/// The value of an `ExtensionObject`.
pub struct ExtensionObjectView {
    pub node_id: NodeIdView,
    pub body: ExtensionObjectEncodingView,
}

impl View for ExtensionObject {
    type V = ExtensionObjectView;

    open spec fn view(&self) -> ExtensionObjectView {
        ExtensionObjectView { node_id: self.node_id@, body: self.body@ }
    }
}

impl Clone for ExtensionObjectEncoding {
    fn clone(&self) -> (r: Self)
        ensures
            r@ == self@,
    {
        match self {
            ExtensionObjectEncoding::Empty => ExtensionObjectEncoding::Empty,
            ExtensionObjectEncoding::ByteString(v) => ExtensionObjectEncoding::ByteString(v.clone()),
            ExtensionObjectEncoding::XmlElement(v) => ExtensionObjectEncoding::XmlElement(v.clone()),
        }
    }
}

impl Clone for ExtensionObject {
    fn clone(&self) -> (r: Self)
        ensures
            r@ == self@,
    {
        ExtensionObject { node_id: self.node_id.clone(), body: self.body.clone() }
    }
}

/// The extension object without type and without body.
pub open spec fn null_extension_object() -> ExtensionObjectView {
    ExtensionObjectView { node_id: numeric_node_id(0, 0), body: ExtensionObjectEncodingView::Empty }
}

impl ExtensionObject {
    /// The extension object without type and without body.
    pub fn null() -> (r: ExtensionObject)
        ensures
            r@ == null_extension_object(),
    {
        ExtensionObject { node_id: NodeId::null(), body: ExtensionObjectEncoding::Empty }
    }

    /// Tests for an extension object without type and body.
    pub fn is_null(&self) -> (r: bool)
        ensures
            r == (self@ == null_extension_object()),
    {
        let no_body = match &self.body {
            ExtensionObjectEncoding::Empty => true,
            _ => false,
        };
        self.node_id.is_null() && no_body
    }
}

/// Wire form of the body: a byte that names its form, then the body.
pub open spec fn body_encoding(v: ExtensionObjectEncodingView) -> Seq<u8> {
    match v {
        ExtensionObjectEncodingView::Empty => seq![0u8],
        ExtensionObjectEncodingView::ByteString(b) => seq![1u8] + ByteString::encoding(b),
        ExtensionObjectEncodingView::XmlElement(x) => seq![2u8] + UAString::encoding(x),
    }
}

/// A body off the front of `s`. A form byte above 2 is malformed.
#[verifier::opaque]
pub open spec fn body_decoding(s: Seq<u8>, limits: DecodingLimits) -> Result<
    (ExtensionObjectEncodingView, Seq<u8>),
    StatusCode,
> {
    match u8::decoding(s, limits) {
        Err(e) => Err(e),
        Ok((form, s)) => if form == 0 {
            Ok((ExtensionObjectEncodingView::Empty, s))
        } else if form == 1 {
            match ByteString::decoding(s, limits) {
                Err(e) => Err(e),
                Ok((b, s)) => Ok((ExtensionObjectEncodingView::ByteString(b), s)),
            }
        } else if form == 2 {
            match UAString::decoding(s, limits) {
                Err(e) => Err(e),
                Ok((x, s)) => Ok((ExtensionObjectEncodingView::XmlElement(x), s)),
            }
        } else {
            Err(StatusCode::BadDecodingError)
        },
    }
}

pub open spec fn body_encodable(v: ExtensionObjectEncodingView) -> bool {
    match v {
        ExtensionObjectEncodingView::Empty => true,
        ExtensionObjectEncodingView::ByteString(b) => ByteString::encodable(b),
        ExtensionObjectEncodingView::XmlElement(x) => UAString::encodable(x),
    }
}

pub open spec fn body_within(v: ExtensionObjectEncodingView, limits: DecodingLimits) -> bool {
    match v {
        ExtensionObjectEncodingView::Empty => true,
        ExtensionObjectEncodingView::ByteString(b) => ByteString::within(b, limits),
        ExtensionObjectEncodingView::XmlElement(x) => UAString::within(x, limits),
    }
}

/// A body is read back from its wire form.
pub proof fn lemma_body_round_trip(
    v: ExtensionObjectEncodingView,
    rest: Seq<u8>,
    limits: DecodingLimits,
)
    requires
        body_encodable(v),
        body_within(v, limits),
    ensures
        body_decoding(body_encoding(v) + rest, limits) == Ok::<
            (ExtensionObjectEncodingView, Seq<u8>),
            StatusCode,
        >((v, rest)),
{
    reveal(body_decoding);
    let s = body_encoding(v) + rest;
    match v {
        ExtensionObjectEncodingView::Empty => {
            assert(s.skip(1) =~= rest);
        },
        ExtensionObjectEncodingView::ByteString(b) => {
            let r1 = ByteString::encoding(b) + rest;
            assert(s =~= seq![1u8] + r1);
            assert(s.skip(1) =~= r1);
            ByteString::lemma_round_trip(b, rest, limits);
        },
        ExtensionObjectEncodingView::XmlElement(x) => {
            let r1 = UAString::encoding(x) + rest;
            assert(s =~= seq![2u8] + r1);
            assert(s.skip(1) =~= r1);
            UAString::lemma_round_trip(x, rest, limits);
        },
    }
}

/// An extension object off the front of `s`: the node id of its type, then
/// its body.
#[verifier::opaque]
pub open spec fn extension_object_decoding(s: Seq<u8>, limits: DecodingLimits) -> Result<
    (ExtensionObjectView, Seq<u8>),
    StatusCode,
> {
    match NodeId::decoding(s, limits) {
        Err(e) => Err(e),
        Ok((node_id, s)) => match body_decoding(s, limits) {
            Err(e) => Err(e),
            Ok((body, s)) => Ok((ExtensionObjectView { node_id, body }, s)),
        },
    }
}

impl BinaryEncoder for ExtensionObject {
    open spec fn encoding(v: ExtensionObjectView) -> Seq<u8> {
        NodeId::encoding(v.node_id) + body_encoding(v.body)
    }

    open spec fn encodable(v: ExtensionObjectView) -> bool {
        NodeId::encodable(v.node_id) && body_encodable(v.body)
    }

    open spec fn within(v: ExtensionObjectView, limits: DecodingLimits) -> bool {
        NodeId::within(v.node_id, limits) && body_within(v.body, limits)
    }

    open spec fn decoding(s: Seq<u8>, limits: DecodingLimits) -> Result<
        (ExtensionObjectView, Seq<u8>),
        StatusCode,
    > {
        extension_object_decoding(s, limits)
    }

    proof fn lemma_round_trip(v: ExtensionObjectView, rest: Seq<u8>, limits: DecodingLimits) {
        reveal(extension_object_decoding);
        let r1 = body_encoding(v.body) + rest;
        assert(Self::encoding(v) + rest =~= NodeId::encoding(v.node_id) + r1);
        NodeId::lemma_round_trip(v.node_id, r1, limits);
        lemma_body_round_trip(v.body, rest, limits);
    }

    fn byte_len(&self) -> (r: usize) {
        let size = add_len(self.node_id.byte_len(), 1);
        match &self.body {
            ExtensionObjectEncoding::Empty => size,
            ExtensionObjectEncoding::ByteString(b) => add_len(size, b.byte_len()),
            ExtensionObjectEncoding::XmlElement(x) => add_len(size, x.byte_len()),
        }
    }

    fn encode(&self, stream: &mut Vec<u8>) -> (r: EncodingResult<usize>) {
        let start = stream.len();
        let ghost o = stream@;
        proof {
            lemma_extends_refl(o);
        }
        write_part(stream, &self.node_id, Ghost(o))?;
        let ghost head = stream@;
        match &self.body {
            ExtensionObjectEncoding::Empty => {
                write_part(stream, &0u8, Ghost(o))?;
            },
            ExtensionObjectEncoding::ByteString(b) => {
                write_part(stream, &1u8, Ghost(o))?;
                write_part(stream, b, Ghost(o))?;
            },
            ExtensionObjectEncoding::XmlElement(x) => {
                write_part(stream, &2u8, Ghost(o))?;
                write_part(stream, x, Ghost(o))?;
            },
        }
        assert(stream@ =~= head + body_encoding(self.body@));
        proof {
            lemma_concat_assoc(o, NodeId::encoding(self.node_id@), body_encoding(self.body@));
        }
        Ok(stream.len() - start)
    }

    fn decode(stream: &mut ReadStream, limits: &DecodingLimits) -> (r: EncodingResult<Self>) {
        proof {
            reveal(extension_object_decoding);
            reveal(body_decoding);
        }
        let node_id = NodeId::decode(stream, limits)?;
        let form = read_u8(stream)?;
        let body = if form == 0 {
            ExtensionObjectEncoding::Empty
        } else if form == 1 {
            ExtensionObjectEncoding::ByteString(ByteString::decode(stream, limits)?)
        } else if form == 2 {
            ExtensionObjectEncoding::XmlElement(UAString::decode(stream, limits)?)
        } else {
            return Err(StatusCode::BadDecodingError);
        };
        Ok(ExtensionObject { node_id, body })
    }
}

} // verus!
