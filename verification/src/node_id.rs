//! Node identifiers.

use vstd::prelude::*;
use crate::byte_string::ByteString;
use crate::encoding::{
    BinaryEncoder, DecodingLimits, EncodingResult, ReadStream, add_len, extends, lemma_concat_assoc,
    lemma_extends_refl, lemma_u16_round_trip, read_u8, saturated, write_part,
};
use crate::guid::Guid;
use crate::status_codes::StatusCode;
use crate::string::UAString;

verus! {

/// The part of a node id that names the node within its namespace.
#[derive(Debug, PartialEq, Eq)]
pub enum Identifier {
    Numeric(u32),
    String(UAString),
    Guid(Guid),
    ByteString(ByteString),
}

/// The value of an `Identifier`.
pub enum IdentifierView {
    Numeric(u32),
    String(Option<Seq<char>>),
    Guid(Guid),
    ByteString(Option<Seq<u8>>),
}

impl View for Identifier {
    type V = IdentifierView;

    open spec fn view(&self) -> IdentifierView {
        match self {
            Identifier::Numeric(v) => IdentifierView::Numeric(*v),
            Identifier::String(v) => IdentifierView::String(v@),
            Identifier::Guid(v) => IdentifierView::Guid(*v),
            Identifier::ByteString(v) => IdentifierView::ByteString(v@),
        }
    }
}

impl Clone for Identifier {
    fn clone(&self) -> (r: Self)
        ensures
            r@ == self@,
    {
        match self {
            Identifier::Numeric(v) => Identifier::Numeric(*v),
            Identifier::String(v) => Identifier::String(v.clone()),
            Identifier::Guid(v) => Identifier::Guid(*v),
            Identifier::ByteString(v) => Identifier::ByteString(v.clone()),
        }
    }
}

/// An identifier for a node in the address space of a server.
#[derive(Debug, PartialEq, Eq)]
pub struct NodeId {
    /// The index of the namespace.
    pub namespace: u16,
    /// The identifier within the namespace.
    pub identifier: Identifier,
}

/// The value of a `NodeId`.
pub struct NodeIdView {
    pub namespace: u16,
    pub identifier: IdentifierView,
}

impl View for NodeId {
    type V = NodeIdView;

    open spec fn view(&self) -> NodeIdView {
        NodeIdView { namespace: self.namespace, identifier: self.identifier@ }
    }
}

impl Clone for NodeId {
    fn clone(&self) -> (r: Self)
        ensures
            r@ == self@,
    {
        NodeId { namespace: self.namespace, identifier: self.identifier.clone() }
    }
}

/// The numeric node id with the given namespace and number.
pub open spec fn numeric_node_id(namespace: u16, value: u32) -> NodeIdView {
    NodeIdView { namespace, identifier: IdentifierView::Numeric(value) }
}

impl NodeId {
    /// The null node id: the number 0 in namespace 0.
    pub fn null() -> (r: NodeId)
        ensures
            r@ == numeric_node_id(0, 0),
    {
        NodeId { namespace: 0, identifier: Identifier::Numeric(0) }
    }

    /// A numeric node id.
    pub fn new_numeric(namespace: u16, value: u32) -> (r: NodeId)
        ensures
            r@ == numeric_node_id(namespace, value),
    {
        NodeId { namespace, identifier: Identifier::Numeric(value) }
    }

    /// A node id named by a string.
    pub fn new_string(namespace: u16, value: &str) -> (r: NodeId)
        ensures
            r@ == (NodeIdView { namespace, identifier: IdentifierView::String(Some(value@)) }),
    {
        NodeId { namespace, identifier: Identifier::String(UAString::from_str(value)) }
    }

    /// Tests for the null node id.
    pub fn is_null(&self) -> (r: bool)
        ensures
            r == (self@ == numeric_node_id(0, 0)),
    {
        match &self.identifier {
            Identifier::Numeric(v) => self.namespace == 0 && *v == 0,
            _ => false,
        }
    }

    /// Tests whether two node ids are the same: the same namespace and the
    /// same identifier.
    pub fn is_same(&self, other: &NodeId) -> (r: bool)
        ensures
            r == (self@ == other@),
    {
        if self.namespace != other.namespace {
            return false;
        }
        match (&self.identifier, &other.identifier) {
            (Identifier::Numeric(a), Identifier::Numeric(b)) => *a == *b,
            (Identifier::String(a), Identifier::String(b)) => a.is_same(b),
            (Identifier::Guid(a), Identifier::Guid(b)) => a.data1 == b.data1 && a.data2 == b.data2
                && a.data3 == b.data3 && a.data4 == b.data4,
            (Identifier::ByteString(a), Identifier::ByteString(b)) => a.is_same(b),
            _ => false,
        }
    }

    /// Tests for a numeric node id.
    pub fn is_numeric(&self) -> (r: bool)
        ensures
            r == (self@.identifier is Numeric),
    {
        match &self.identifier {
            Identifier::Numeric(_) => true,
            _ => false,
        }
    }
}

/// The byte that names the layout of the wire form of a node id. A number
/// takes the shortest of three layouts that holds it: 0 for a number up to
/// 255 in namespace 0, 1 for a number up to 65535 in a namespace up to 255,
/// and 2 else. A string is layout 3, a guid 4 and a byte string 5.
pub open spec fn node_id_layout(v: NodeIdView) -> u8 {
    match v.identifier {
        IdentifierView::Numeric(value) => if v.namespace == 0 && value <= 255 {
            0
        } else if v.namespace <= 255 && value <= 65535 {
            1
        } else {
            2
        },
        IdentifierView::String(_) => 3,
        IdentifierView::Guid(_) => 4,
        IdentifierView::ByteString(_) => 5,
    }
}

/// What follows the layout byte: in layout 0 the number as one byte, in
/// layout 1 the namespace as one byte and the number as two, and in the
/// other layouts the namespace as two bytes and the identifier.
#[verifier::opaque]
pub open spec fn node_id_body_encoding(v: NodeIdView) -> Seq<u8> {
    match v.identifier {
        IdentifierView::Numeric(value) => if v.namespace == 0 && value <= 255 {
            u8::encoding(value as u8)
        } else if v.namespace <= 255 && value <= 65535 {
            u8::encoding(v.namespace as u8) + u16::encoding(value as u16)
        } else {
            u16::encoding(v.namespace) + u32::encoding(value)
        },
        IdentifierView::String(value) => u16::encoding(v.namespace) + UAString::encoding(value),
        IdentifierView::Guid(value) => u16::encoding(v.namespace) + Guid::encoding(value),
        IdentifierView::ByteString(value) => u16::encoding(v.namespace) + ByteString::encoding(
            value,
        ),
    }
}

/// Wire form of a node id: the byte that names the layout, then what the
/// layout holds.
pub open spec fn node_id_encoding(v: NodeIdView) -> Seq<u8> {
    seq![node_id_layout(v)] + node_id_body_encoding(v)
}

/// The identifier that follows the layout byte `layout` and the namespace.
pub open spec fn identifier_decoding(layout: u8, s: Seq<u8>, limits: DecodingLimits) -> Result<
    (IdentifierView, Seq<u8>),
    StatusCode,
> {
    if layout == 2 {
        match u32::decoding(s, limits) {
            Err(e) => Err(e),
            Ok((value, s)) => Ok((IdentifierView::Numeric(value), s)),
        }
    } else if layout == 3 {
        match UAString::decoding(s, limits) {
            Err(e) => Err(e),
            Ok((value, s)) => Ok((IdentifierView::String(value), s)),
        }
    } else if layout == 4 {
        match Guid::decoding(s, limits) {
            Err(e) => Err(e),
            Ok((value, s)) => Ok((IdentifierView::Guid(value), s)),
        }
    } else {
        match ByteString::decoding(s, limits) {
            Err(e) => Err(e),
            Ok((value, s)) => Ok((IdentifierView::ByteString(value), s)),
        }
    }
}

/// The node id that follows the layout byte `layout`. A layout byte above 5
/// is malformed.
#[verifier::opaque]
pub open spec fn node_id_body_decoding(layout: u8, s: Seq<u8>, limits: DecodingLimits) -> Result<
    (NodeIdView, Seq<u8>),
    StatusCode,
> {
    if layout == 0 {
        match u8::decoding(s, limits) {
            Err(e) => Err(e),
            Ok((value, s)) => Ok((numeric_node_id(0, value as u32), s)),
        }
    } else if layout == 1 {
        match u8::decoding(s, limits) {
            Err(e) => Err(e),
            Ok((namespace, s)) => match u16::decoding(s, limits) {
                Err(e) => Err(e),
                Ok((value, s)) => Ok((numeric_node_id(namespace as u16, value as u32), s)),
            },
        }
    } else if layout <= 5 {
        match u16::decoding(s, limits) {
            Err(e) => Err(e),
            Ok((namespace, s)) => match identifier_decoding(layout, s, limits) {
                Err(e) => Err(e),
                Ok((identifier, s)) => Ok((NodeIdView { namespace, identifier }, s)),
            },
        }
    } else {
        Err(StatusCode::BadDecodingError)
    }
}

/// A node id off the front of `s`: the layout byte, then what the layout
/// holds.
#[verifier::opaque]
pub open spec fn node_id_decoding(s: Seq<u8>, limits: DecodingLimits) -> Result<
    (NodeIdView, Seq<u8>),
    StatusCode,
> {
    match u8::decoding(s, limits) {
        Err(e) => Err(e),
        Ok((layout, s)) => node_id_body_decoding(layout, s, limits),
    }
}

pub open spec fn node_id_encodable(v: NodeIdView) -> bool {
    match v.identifier {
        IdentifierView::String(value) => UAString::encodable(value),
        IdentifierView::ByteString(value) => ByteString::encodable(value),
        _ => true,
    }
}

pub open spec fn node_id_within(v: NodeIdView, limits: DecodingLimits) -> bool {
    match v.identifier {
        IdentifierView::String(value) => UAString::within(value, limits),
        IdentifierView::ByteString(value) => ByteString::within(value, limits),
        _ => true,
    }
}

/// What a layout holds is read back from its wire form under the layout
/// byte.
pub proof fn lemma_node_id_body_round_trip(v: NodeIdView, rest: Seq<u8>, limits: DecodingLimits)
    requires
        node_id_encodable(v),
        node_id_within(v, limits),
    ensures
        node_id_body_decoding(node_id_layout(v), node_id_body_encoding(v) + rest, limits) == Ok::<
            (NodeIdView, Seq<u8>),
            StatusCode,
        >((v, rest)),
        node_id_layout(v) <= 5,
{
    reveal(node_id_body_encoding);
    reveal(node_id_body_decoding);
    match v.identifier {
        IdentifierView::Numeric(value) => {
            if v.namespace == 0 && value <= 255 {
                u8::lemma_round_trip(value as u8, rest, limits);
            } else if v.namespace <= 255 && value <= 65535 {
                let r2 = u16::encoding(value as u16) + rest;
                lemma_concat_assoc(
                    u8::encoding(v.namespace as u8),
                    u16::encoding(value as u16),
                    rest,
                );
                u8::lemma_round_trip(v.namespace as u8, r2, limits);
                u16::lemma_round_trip(value as u16, rest, limits);
            } else {
                let r2 = u32::encoding(value) + rest;
                lemma_concat_assoc(u16::encoding(v.namespace), u32::encoding(value), rest);
                u16::lemma_round_trip(v.namespace, r2, limits);
                u32::lemma_round_trip(value, rest, limits);
            }
        },
        IdentifierView::String(value) => {
            let r2 = UAString::encoding(value) + rest;
            lemma_concat_assoc(u16::encoding(v.namespace), UAString::encoding(value), rest);
            u16::lemma_round_trip(v.namespace, r2, limits);
            UAString::lemma_round_trip(value, rest, limits);
        },
        IdentifierView::Guid(value) => {
            let r2 = Guid::encoding(value) + rest;
            lemma_concat_assoc(u16::encoding(v.namespace), Guid::encoding(value), rest);
            u16::lemma_round_trip(v.namespace, r2, limits);
            Guid::lemma_round_trip(value, rest, limits);
        },
        IdentifierView::ByteString(value) => {
            let r2 = ByteString::encoding(value) + rest;
            lemma_concat_assoc(u16::encoding(v.namespace), ByteString::encoding(value), rest);
            u16::lemma_round_trip(v.namespace, r2, limits);
            ByteString::lemma_round_trip(value, rest, limits);
        },
    }
}

impl NodeId {
    /// The byte that names the layout of the wire form.
    pub fn layout(&self) -> (r: u8)
        ensures
            r == node_id_layout(self@),
            r <= 5,
    {
        match &self.identifier {
            Identifier::Numeric(value) => {
                if self.namespace == 0 && *value <= 255 {
                    0
                } else if self.namespace <= 255 && *value <= 65535 {
                    1
                } else {
                    2
                }
            },
            Identifier::String(_) => 3,
            Identifier::Guid(_) => 4,
            Identifier::ByteString(_) => 5,
        }
    }

    /// Size of what follows the layout byte.
    pub fn byte_len_body(&self) -> (r: usize)
        ensures
            r == saturated(node_id_body_encoding(self@).len()),
    {
        proof {
            reveal(node_id_body_encoding);
        }
        match &self.identifier {
            Identifier::Numeric(value) => {
                if self.namespace == 0 && *value <= 255 {
                    1
                } else if self.namespace <= 255 && *value <= 65535 {
                    proof {
                        lemma_u16_round_trip(*value as u16, Seq::empty());
                    }
                    3
                } else {
                    add_len(self.namespace.byte_len(), value.byte_len())
                }
            },
            Identifier::String(value) => add_len(self.namespace.byte_len(), value.byte_len()),
            Identifier::Guid(value) => add_len(self.namespace.byte_len(), value.byte_len()),
            Identifier::ByteString(value) => add_len(self.namespace.byte_len(), value.byte_len()),
        }
    }

    /// Appends what follows the layout byte to the stream. `start` is what
    /// the stream held when the encoding of the whole value began.
    pub(crate) fn encode_body(&self, stream: &mut Vec<u8>, Ghost(start): Ghost<Seq<u8>>) -> (r:
        EncodingResult<usize>)
        requires
            extends(old(stream)@, start),
        ensures
            node_id_encodable(self@) ==> r is Ok && final(stream)@ == old(stream)@
                + node_id_body_encoding(self@),
            !node_id_encodable(self@) ==> r == Err::<usize, StatusCode>(
                StatusCode::BadEncodingLimitsExceeded,
            ),
            extends(final(stream)@, start),
    {
        let ghost o = stream@;
        proof {
            reveal(node_id_body_encoding);
        }
        match &self.identifier {
            Identifier::Numeric(value) => {
                if self.namespace == 0 && *value <= 255 {
                    write_part(stream, &(*value as u8), Ghost(start))?;
                } else if self.namespace <= 255 && *value <= 65535 {
                    write_part(stream, &(self.namespace as u8), Ghost(start))?;
                    write_part(stream, &(*value as u16), Ghost(start))?;
                    proof {
                        lemma_concat_assoc(
                            o,
                            u8::encoding(self.namespace as u8),
                            u16::encoding(*value as u16),
                        );
                    }
                } else {
                    write_part(stream, &self.namespace, Ghost(start))?;
                    write_part(stream, value, Ghost(start))?;
                    proof {
                        lemma_concat_assoc(
                            o,
                            u16::encoding(self.namespace),
                            u32::encoding(*value),
                        );
                    }
                }
            },
            Identifier::String(value) => {
                write_part(stream, &self.namespace, Ghost(start))?;
                write_part(stream, value, Ghost(start))?;
                proof {
                    lemma_concat_assoc(
                        o,
                        u16::encoding(self.namespace),
                        UAString::encoding(value@),
                    );
                }
            },
            Identifier::Guid(value) => {
                write_part(stream, &self.namespace, Ghost(start))?;
                write_part(stream, value, Ghost(start))?;
                proof {
                    lemma_concat_assoc(o, u16::encoding(self.namespace), Guid::encoding(*value));
                }
            },
            Identifier::ByteString(value) => {
                write_part(stream, &self.namespace, Ghost(start))?;
                write_part(stream, value, Ghost(start))?;
                proof {
                    lemma_concat_assoc(
                        o,
                        u16::encoding(self.namespace),
                        ByteString::encoding(value@),
                    );
                }
            },
        }
        Ok(0)
    }

    /// Reads the node id that follows the layout byte `layout` from the
    /// stream.
    pub fn decode_body(layout: u8, stream: &mut ReadStream, limits: &DecodingLimits) -> (r:
        EncodingResult<NodeId>)
        ensures
            match node_id_body_decoding(layout, old(stream)@, *limits) {
                Ok((v, rest)) => r is Ok && r.unwrap()@ == v && final(stream)@ == rest,
                Err(e) => r matches Err(x) && x == e,
            },
    {
        proof {
            reveal(node_id_body_decoding);
        }
        if layout == 0 {
            let value = read_u8(stream)?;
            Ok(NodeId::new_numeric(0, value as u32))
        } else if layout == 1 {
            let namespace = read_u8(stream)?;
            let value = u16::decode(stream, limits)?;
            Ok(NodeId::new_numeric(namespace as u16, value as u32))
        } else if layout <= 5 {
            let namespace = u16::decode(stream, limits)?;
            let identifier = if layout == 2 {
                Identifier::Numeric(u32::decode(stream, limits)?)
            } else if layout == 3 {
                Identifier::String(UAString::decode(stream, limits)?)
            } else if layout == 4 {
                Identifier::Guid(Guid::decode(stream, limits)?)
            } else {
                Identifier::ByteString(ByteString::decode(stream, limits)?)
            };
            Ok(NodeId { namespace, identifier })
        } else {
            Err(StatusCode::BadDecodingError)
        }
    }
}

impl BinaryEncoder for NodeId {
    open spec fn encoding(v: NodeIdView) -> Seq<u8> {
        node_id_encoding(v)
    }

    open spec fn encodable(v: NodeIdView) -> bool {
        node_id_encodable(v)
    }

    open spec fn within(v: NodeIdView, limits: DecodingLimits) -> bool {
        node_id_within(v, limits)
    }

    open spec fn decoding(s: Seq<u8>, limits: DecodingLimits) -> Result<
        (NodeIdView, Seq<u8>),
        StatusCode,
    > {
        node_id_decoding(s, limits)
    }

    proof fn lemma_round_trip(v: NodeIdView, rest: Seq<u8>, limits: DecodingLimits) {
        reveal(node_id_decoding);
        let s = Self::encoding(v) + rest;
        let body = node_id_body_encoding(v) + rest;
        lemma_concat_assoc(seq![node_id_layout(v)], node_id_body_encoding(v), rest);
        assert(s.skip(1) =~= body);
        assert(s[0] == node_id_layout(v));
        lemma_node_id_body_round_trip(v, rest, limits);
    }

    fn byte_len(&self) -> (r: usize) {
        add_len(1, self.byte_len_body())
    }

    fn encode(&self, stream: &mut Vec<u8>) -> (r: EncodingResult<usize>) {
        let start = stream.len();
        let ghost o = stream@;
        proof {
            lemma_extends_refl(o);
        }
        let layout = self.layout();
        write_part(stream, &layout, Ghost(o))?;
        self.encode_body(stream, Ghost(o))?;
        proof {
            lemma_concat_assoc(o, seq![layout], node_id_body_encoding(self@));
        }
        Ok(stream.len() - start)
    }

    fn decode(stream: &mut ReadStream, limits: &DecodingLimits) -> (r: EncodingResult<Self>) {
        proof {
            reveal(node_id_decoding);
        }
        let layout = read_u8(stream)?;
        NodeId::decode_body(layout, stream, limits)
    }
}

} // verus!
