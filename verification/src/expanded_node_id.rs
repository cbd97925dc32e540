//! Expanded node ids: node ids that may name their namespace by its URI and
//! the server that holds the node.

use vstd::prelude::*;
use crate::encoding::{
    BinaryEncoder, DecodingLimits, EncodingResult, ReadStream, add_len, lemma_concat_assoc,
    lemma_extends_refl, read_u8, saturated, write_part,
};
use crate::node_id::{
    NodeId, NodeIdView, lemma_node_id_body_round_trip, node_id_body_decoding,
    node_id_body_encoding, node_id_encodable, node_id_layout, node_id_within,
};
use crate::status_codes::StatusCode;
use crate::string::UAString;

verus! {

/// A node id, the URI of its namespace where the index of the namespace is
/// not enough, and the index of the server that holds the node, which is 0
/// for the server at hand.
#[derive(Clone, Debug, PartialEq, Eq)]
pub struct ExpandedNodeId {
    pub node_id: NodeId,
    pub namespace_uri: UAString,
    pub server_index: u32,
}

/// The value of an `ExpandedNodeId`.
pub struct ExpandedNodeIdView {
    pub node_id: NodeIdView,
    pub namespace_uri: Option<Seq<char>>,
    pub server_index: u32,
}

impl View for ExpandedNodeId {
    type V = ExpandedNodeIdView;

    open spec fn view(&self) -> ExpandedNodeIdView {
        ExpandedNodeIdView {
            node_id: self.node_id@,
            namespace_uri: self.namespace_uri@,
            server_index: self.server_index,
        }
    }
}

impl ExpandedNodeId {
    /// The expanded node id of a node of the server at hand.
    pub fn new(node_id: NodeId) -> (r: ExpandedNodeId)
        ensures
            r@ == (ExpandedNodeIdView { node_id: node_id@, namespace_uri: None, server_index: 0 }),
    {
        ExpandedNodeId { node_id, namespace_uri: UAString::null(), server_index: 0 }
    }

    /// The null node id of the server at hand.
    pub fn null() -> (r: ExpandedNodeId)
        ensures
            r@ == (ExpandedNodeIdView {
                node_id: crate::node_id::numeric_node_id(0, 0),
                namespace_uri: None,
                server_index: 0,
            }),
    {
        ExpandedNodeId::new(NodeId::null())
    }
}

/// The first byte of the wire form: the layout of the node id, with 128
/// added where the namespace URI follows and 64 where the server index
/// follows.
pub open spec fn expanded_node_id_mask(v: ExpandedNodeIdView) -> u8 {
    (node_id_layout(v.node_id) + (if v.namespace_uri is Some {
        128int
    } else {
        0int
    }) + (if v.server_index != 0 {
        64int
    } else {
        0int
    })) as u8
}

/// Wire form of the namespace URI: nothing for no URI.
pub open spec fn namespace_uri_encoding(namespace_uri: Option<Seq<char>>) -> Seq<u8> {
    if namespace_uri is Some {
        UAString::encoding(namespace_uri)
    } else {
        Seq::empty()
    }
}

/// Wire form of the server index: nothing for the server at hand.
pub open spec fn server_index_encoding(server_index: u32) -> Seq<u8> {
    if server_index != 0 {
        u32::encoding(server_index)
    } else {
        Seq::empty()
    }
}

/// Wire form of an expanded node id: the first byte, what the layout of the
/// node id holds, the namespace URI where there is one, and the server
/// index where it is not 0.
pub open spec fn expanded_node_id_encoding(v: ExpandedNodeIdView) -> Seq<u8> {
    seq![expanded_node_id_mask(v)] + node_id_body_encoding(v.node_id) + namespace_uri_encoding(
        v.namespace_uri,
    ) + server_index_encoding(v.server_index)
}

/// The namespace URI that follows where `present` holds; none else.
pub open spec fn namespace_uri_decoding(present: bool, s: Seq<u8>, limits: DecodingLimits) -> Result<
    (Option<Seq<char>>, Seq<u8>),
    StatusCode,
> {
    if present {
        UAString::decoding(s, limits)
    } else {
        Ok((None, s))
    }
}

/// The server index that follows where `present` holds; 0 else.
pub open spec fn server_index_decoding(present: bool, s: Seq<u8>, limits: DecodingLimits) -> Result<
    (u32, Seq<u8>),
    StatusCode,
> {
    if present {
        u32::decoding(s, limits)
    } else {
        Ok((0u32, s))
    }
}

/// An expanded node id off the front of `s`.
#[verifier::opaque]
pub open spec fn expanded_node_id_decoding(s: Seq<u8>, limits: DecodingLimits) -> Result<
    (ExpandedNodeIdView, Seq<u8>),
    StatusCode,
> {
    match u8::decoding(s, limits) {
        Err(e) => Err(e),
        Ok((mask, s)) => match node_id_body_decoding(mask % 64, s, limits) {
            Err(e) => Err(e),
            Ok((node_id, s)) => match namespace_uri_decoding(mask >= 128, s, limits) {
                Err(e) => Err(e),
                Ok((namespace_uri, s)) => match server_index_decoding(
                    (mask / 64) % 2 == 1,
                    s,
                    limits,
                ) {
                    Err(e) => Err(e),
                    Ok((server_index, s)) => Ok(
                        (ExpandedNodeIdView { node_id, namespace_uri, server_index }, s),
                    ),
                },
            },
        },
    }
}

impl BinaryEncoder for ExpandedNodeId {
    open spec fn encoding(v: ExpandedNodeIdView) -> Seq<u8> {
        expanded_node_id_encoding(v)
    }

    open spec fn encodable(v: ExpandedNodeIdView) -> bool {
        node_id_encodable(v.node_id) && UAString::encodable(v.namespace_uri)
    }

    open spec fn within(v: ExpandedNodeIdView, limits: DecodingLimits) -> bool {
        node_id_within(v.node_id, limits) && UAString::within(v.namespace_uri, limits)
    }

    open spec fn decoding(s: Seq<u8>, limits: DecodingLimits) -> Result<
        (ExpandedNodeIdView, Seq<u8>),
        StatusCode,
    > {
        expanded_node_id_decoding(s, limits)
    }

    proof fn lemma_round_trip(v: ExpandedNodeIdView, rest: Seq<u8>, limits: DecodingLimits) {
        reveal(expanded_node_id_decoding);
        let mask = expanded_node_id_mask(v);
        let p1 = node_id_body_encoding(v.node_id);
        let p2 = namespace_uri_encoding(v.namespace_uri);
        let p3 = server_index_encoding(v.server_index);
        let r3 = p3 + rest;
        let r2 = p2 + r3;
        let r1 = p1 + r2;
        let s = Self::encoding(v) + rest;
        lemma_concat_assoc(seq![mask] + p1 + p2, p3, rest);
        lemma_concat_assoc(seq![mask] + p1, p2, r3);
        lemma_concat_assoc(seq![mask], p1, r2);
        assert(s.skip(1) =~= r1);
        assert(s[0] == mask);
        lemma_node_id_body_round_trip(v.node_id, r2, limits);
        assert(mask % 64 == node_id_layout(v.node_id));
        assert((mask >= 128) == (v.namespace_uri is Some));
        assert(((mask / 64) % 2 == 1) == (v.server_index != 0));
        if v.namespace_uri is Some {
            UAString::lemma_round_trip(v.namespace_uri, r3, limits);
        } else {
            assert(r2 =~= r3);
        }
        if v.server_index != 0 {
            u32::lemma_round_trip(v.server_index, rest, limits);
        } else {
            assert(r3 =~= rest);
        }
    }

    fn byte_len(&self) -> (r: usize) {
        let ghost v = self@;
        let ghost e1 = seq![expanded_node_id_mask(v)] + node_id_body_encoding(v.node_id);
        let ghost e2 = e1 + namespace_uri_encoding(v.namespace_uri);
        let mut size: usize = add_len(1, self.node_id.byte_len_body());
        if !self.namespace_uri.is_null() {
            size = add_len(size, self.namespace_uri.byte_len());
        }
        assert(size == saturated(e2.len()));
        if self.server_index != 0 {
            size = add_len(size, self.server_index.byte_len());
        }
        size
    }

    fn encode(&self, stream: &mut Vec<u8>) -> (r: EncodingResult<usize>) {
        let start = stream.len();
        let ghost o = stream@;
        let ghost v = self@;
        proof {
            lemma_extends_refl(o);
        }
        let mut mask: u8 = self.node_id.layout();
        if !self.namespace_uri.is_null() {
            mask = mask + 128;
        }
        if self.server_index != 0 {
            mask = mask + 64;
        }
        write_part(stream, &mask, Ghost(o))?;
        self.node_id.encode_body(stream, Ghost(o))?;
        let ghost e1 = stream@;
        if !self.namespace_uri.is_null() {
            write_part(stream, &self.namespace_uri, Ghost(o))?;
        } else {
            assert(e1 + namespace_uri_encoding(v.namespace_uri) =~= e1);
        }
        let ghost e2 = stream@;
        if self.server_index != 0 {
            write_part(stream, &self.server_index, Ghost(o))?;
        } else {
            assert(e2 + server_index_encoding(v.server_index) =~= e2);
        }
        proof {
            let p0 = seq![expanded_node_id_mask(v)];
            let p1 = node_id_body_encoding(v.node_id);
            let p2 = namespace_uri_encoding(v.namespace_uri);
            let p3 = server_index_encoding(v.server_index);
            lemma_concat_assoc(o, p0, p1);
            lemma_concat_assoc(o, p0 + p1, p2);
            lemma_concat_assoc(o, p0 + p1 + p2, p3);
        }
        Ok(stream.len() - start)
    }

    fn decode(stream: &mut ReadStream, limits: &DecodingLimits) -> (r: EncodingResult<Self>) {
        proof {
            reveal(expanded_node_id_decoding);
        }
        let mask = read_u8(stream)?;
        let node_id = NodeId::decode_body(mask % 64, stream, limits)?;
        let namespace_uri = if mask >= 128 {
            UAString::decode(stream, limits)?
        } else {
            UAString::null()
        };
        let server_index = if (mask / 64) % 2 == 1 {
            u32::decode(stream, limits)?
        } else {
            0
        };
        Ok(ExpandedNodeId { node_id, namespace_uri, server_index })
    }
}

} // verus!
