//! The attributes of a view node.

use vstd::prelude::*;
use crate::encoding::{
    BinaryEncoder, DecodingLimits, EncodingResult, ReadStream, add_part_len, lemma_concat_assoc,
    lemma_extends_refl, write_part,
};
use crate::localized_text::{LocalizedText, LocalizedTextView};
use crate::status_codes::StatusCode;

verus! {

/// The attributes from which a view node is made.
#[derive(Clone, Debug, PartialEq, Eq)]
pub struct ViewAttributes {
    /// The attributes that are given, one bit each.
    pub specified_attributes: u32,
    /// The display name of the node.
    pub display_name: LocalizedText,
    /// The description of the node.
    pub description: LocalizedText,
    /// The attributes that may be written.
    pub write_mask: u32,
    /// The attributes that the user may write.
    pub user_write_mask: u32,
    /// Whether following references in the view never leads back to a node.
    pub contains_no_loops: bool,
    /// Whether the view gives notice of events.
    pub event_notifier: u8,
}

/// The value of a `ViewAttributes`.
pub struct ViewAttributesView {
    pub specified_attributes: u32,
    pub display_name: LocalizedTextView,
    pub description: LocalizedTextView,
    pub write_mask: u32,
    pub user_write_mask: u32,
    pub contains_no_loops: bool,
    pub event_notifier: u8,
}

impl View for ViewAttributes {
    type V = ViewAttributesView;

    open spec fn view(&self) -> ViewAttributesView {
        ViewAttributesView {
            specified_attributes: self.specified_attributes,
            display_name: self.display_name@,
            description: self.description@,
            write_mask: self.write_mask,
            user_write_mask: self.user_write_mask,
            contains_no_loops: self.contains_no_loops,
            event_notifier: self.event_notifier,
        }
    }
}

/// Wire form of a `ViewAttributes`: its fields in the order of their declaration.
pub open spec fn view_attributes_encoding(v: ViewAttributesView) -> Seq<u8> {
    u32::encoding(v.specified_attributes) + LocalizedText::encoding(v.display_name)
        + LocalizedText::encoding(v.description) + u32::encoding(v.write_mask)
        + u32::encoding(v.user_write_mask) + bool::encoding(v.contains_no_loops)
        + u8::encoding(v.event_notifier)
}

/// A `ViewAttributes` off the front of `s`: its fields, one behind the other.
#[verifier::opaque]
pub open spec fn view_attributes_decoding(s: Seq<u8>, limits: DecodingLimits) -> Result<
    (ViewAttributesView, Seq<u8>),
    StatusCode,
> {
    match u32::decoding(s, limits) {
        Err(e) => Err(e),
        Ok((specified_attributes, s)) =>
            match LocalizedText::decoding(s, limits) {
                Err(e) => Err(e),
                Ok((display_name, s)) =>
                    match LocalizedText::decoding(s, limits) {
                        Err(e) => Err(e),
                        Ok((description, s)) =>
                            match u32::decoding(s, limits) {
                                Err(e) => Err(e),
                                Ok((write_mask, s)) =>
                                    match u32::decoding(s, limits) {
                                        Err(e) => Err(e),
                                        Ok((user_write_mask, s)) =>
                                            match bool::decoding(s, limits) {
                                                Err(e) => Err(e),
                                                Ok((contains_no_loops, s)) =>
                                                    match u8::decoding(s, limits) {
                                                        Err(e) => Err(e),
                                                        Ok((event_notifier, s)) =>
                                                            Ok((
                                                                ViewAttributesView {
                                                                    specified_attributes,
                                                                    display_name,
                                                                    description,
                                                                    write_mask,
                                                                    user_write_mask,
                                                                    contains_no_loops,
                                                                    event_notifier,
                                                                },
                                                                s,
                                                            )),
                                                    },
                                            },
                                    },
                            },
                    },
            },
    }
}

impl BinaryEncoder for ViewAttributes {
    open spec fn encoding(v: ViewAttributesView) -> Seq<u8> {
        view_attributes_encoding(v)
    }

    open spec fn encodable(v: ViewAttributesView) -> bool {
        &&& LocalizedText::encodable(v.display_name)
        &&& LocalizedText::encodable(v.description)
    }

    open spec fn within(v: ViewAttributesView, limits: DecodingLimits) -> bool {
        &&& LocalizedText::within(v.display_name, limits)
        &&& LocalizedText::within(v.description, limits)
    }

    open spec fn decoding(s: Seq<u8>, limits: DecodingLimits) -> Result<
        (ViewAttributesView, Seq<u8>),
        StatusCode,
    > {
        view_attributes_decoding(s, limits)
    }

    proof fn lemma_round_trip(v: ViewAttributesView, rest: Seq<u8>, limits: DecodingLimits) {
        reveal(view_attributes_decoding);
        let p0 = u32::encoding(v.specified_attributes);
        let p1 = LocalizedText::encoding(v.display_name);
        let p2 = LocalizedText::encoding(v.description);
        let p3 = u32::encoding(v.write_mask);
        let p4 = u32::encoding(v.user_write_mask);
        let p5 = bool::encoding(v.contains_no_loops);
        let p6 = u8::encoding(v.event_notifier);
        let r6 = p6 + rest;
        let r5 = p5 + r6;
        let r4 = p4 + r5;
        let r3 = p3 + r4;
        let r2 = p2 + r3;
        let r1 = p1 + r2;
        lemma_concat_assoc(p0 + p1 + p2 + p3 + p4 + p5, p6, rest);
        lemma_concat_assoc(p0 + p1 + p2 + p3 + p4, p5, r6);
        lemma_concat_assoc(p0 + p1 + p2 + p3, p4, r5);
        lemma_concat_assoc(p0 + p1 + p2, p3, r4);
        lemma_concat_assoc(p0 + p1, p2, r3);
        lemma_concat_assoc(p0, p1, r2);
        u32::lemma_round_trip(v.specified_attributes, r1, limits);
        LocalizedText::lemma_round_trip(v.display_name, r2, limits);
        LocalizedText::lemma_round_trip(v.description, r3, limits);
        u32::lemma_round_trip(v.write_mask, r4, limits);
        u32::lemma_round_trip(v.user_write_mask, r5, limits);
        bool::lemma_round_trip(v.contains_no_loops, r6, limits);
        u8::lemma_round_trip(v.event_notifier, rest, limits);
    }

    fn byte_len(&self) -> (r: usize) {
        let ghost v = self@;
        let ghost e0 = u32::encoding(v.specified_attributes);
        let ghost e1 = e0 + LocalizedText::encoding(v.display_name);
        let ghost e2 = e1 + LocalizedText::encoding(v.description);
        let ghost e3 = e2 + u32::encoding(v.write_mask);
        let ghost e4 = e3 + u32::encoding(v.user_write_mask);
        let ghost e5 = e4 + bool::encoding(v.contains_no_loops);
        let ghost e6 = e5 + u8::encoding(v.event_notifier);
        let mut size: usize = self.specified_attributes.byte_len();
        size = add_part_len(
            size,
            self.display_name.byte_len(),
            Ghost(e0),
            Ghost(LocalizedText::encoding(v.display_name)),
        );
        size = add_part_len(
            size,
            self.description.byte_len(),
            Ghost(e1),
            Ghost(LocalizedText::encoding(v.description)),
        );
        size = add_part_len(
            size,
            self.write_mask.byte_len(),
            Ghost(e2),
            Ghost(u32::encoding(v.write_mask)),
        );
        size = add_part_len(
            size,
            self.user_write_mask.byte_len(),
            Ghost(e3),
            Ghost(u32::encoding(v.user_write_mask)),
        );
        size = add_part_len(
            size,
            self.contains_no_loops.byte_len(),
            Ghost(e4),
            Ghost(bool::encoding(v.contains_no_loops)),
        );
        size = add_part_len(
            size,
            self.event_notifier.byte_len(),
            Ghost(e5),
            Ghost(u8::encoding(v.event_notifier)),
        );
        size
    }

    fn encode(&self, stream: &mut Vec<u8>) -> (r: EncodingResult<usize>) {
        let start = stream.len();
        let ghost o = stream@;
        let ghost v = self@;
        proof {
            lemma_extends_refl(o);
        }
        write_part(stream, &self.specified_attributes, Ghost(o))?;
        write_part(stream, &self.display_name, Ghost(o))?;
        write_part(stream, &self.description, Ghost(o))?;
        write_part(stream, &self.write_mask, Ghost(o))?;
        write_part(stream, &self.user_write_mask, Ghost(o))?;
        write_part(stream, &self.contains_no_loops, Ghost(o))?;
        write_part(stream, &self.event_notifier, Ghost(o))?;
        proof {
            let p0 = u32::encoding(v.specified_attributes);
            let p1 = LocalizedText::encoding(v.display_name);
            let p2 = LocalizedText::encoding(v.description);
            let p3 = u32::encoding(v.write_mask);
            let p4 = u32::encoding(v.user_write_mask);
            let p5 = bool::encoding(v.contains_no_loops);
            let p6 = u8::encoding(v.event_notifier);
            lemma_concat_assoc(o, p0, p1);
            lemma_concat_assoc(o, p0 + p1, p2);
            lemma_concat_assoc(o, p0 + p1 + p2, p3);
            lemma_concat_assoc(o, p0 + p1 + p2 + p3, p4);
            lemma_concat_assoc(o, p0 + p1 + p2 + p3 + p4, p5);
            lemma_concat_assoc(o, p0 + p1 + p2 + p3 + p4 + p5, p6);
        }
        Ok(stream.len() - start)
    }

    fn decode(stream: &mut ReadStream, limits: &DecodingLimits) -> (r: EncodingResult<Self>) {
        proof {
            reveal(view_attributes_decoding);
        }
        let specified_attributes = u32::decode(stream, limits)?;
        let display_name = LocalizedText::decode(stream, limits)?;
        let description = LocalizedText::decode(stream, limits)?;
        let write_mask = u32::decode(stream, limits)?;
        let user_write_mask = u32::decode(stream, limits)?;
        let contains_no_loops = bool::decode(stream, limits)?;
        let event_notifier = u8::decode(stream, limits)?;
        Ok(
            ViewAttributes {
                specified_attributes,
                display_name,
                description,
                write_mask,
                user_write_mask,
                contains_no_loops,
                event_notifier,
            },
        )
    }
}

} // verus!
