//! Diagnostic information: vendor specific detail on a failed operation.

use vstd::prelude::*;
use crate::encoding::{
    BinaryEncoder, DecodingLimits, EncodingResult, ReadStream, add_len, byte_len_optional,
    bytes_decoding, extends, lemma_concat_assoc, lemma_extends_refl, lemma_extends_trans,
    lemma_optional_round_trip, option_view, optional_decoding, optional_encodable,
    optional_encoding, optional_within, read_optional, read_u8, saturated, write_optional_part,
    write_part,
};
use crate::status_codes::{StatusCode, status_code_decoding};
use crate::string::{UAString, string_decoding};

verus! {

/// Detail on a failure. Every part is optional, and the last part is the
/// diagnostic information of the failure that caused this one.
#[derive(Debug, PartialEq, Eq)]
pub struct DiagnosticInfo {
    /// Index into the string table of the symbol that names the failure.
    pub symbolic_id: Option<i32>,
    /// Index into the string table of the namespace of the symbol.
    pub namespace_uri: Option<i32>,
    /// Index into the string table of the locale of the text.
    pub locale: Option<i32>,
    /// Index into the string table of the text that describes the failure.
    pub localized_text: Option<i32>,
    /// Vendor specific detail.
    pub additional_info: Option<UAString>,
    /// Status code of the failure that caused this one.
    pub inner_status_code: Option<StatusCode>,
    /// Diagnostic information of the failure that caused this one.
    pub inner_diagnostic_info: Option<Box<DiagnosticInfo>>,
}

/// The value of a `DiagnosticInfo`.
pub struct DiagnosticInfoView {
    pub symbolic_id: Option<i32>,
    pub namespace_uri: Option<i32>,
    pub locale: Option<i32>,
    pub localized_text: Option<i32>,
    pub additional_info: Option<Option<Seq<char>>>,
    pub inner_status_code: Option<StatusCode>,
    pub inner_diagnostic_info: Option<Box<DiagnosticInfoView>>,
}

/// The value that diagnostic information stands for.
pub open spec fn diagnostic_info_view(d: DiagnosticInfo) -> DiagnosticInfoView
    decreases d,
{
    DiagnosticInfoView {
        symbolic_id: option_view(d.symbolic_id),
        namespace_uri: option_view(d.namespace_uri),
        locale: option_view(d.locale),
        localized_text: option_view(d.localized_text),
        additional_info: option_view(d.additional_info),
        inner_status_code: option_view(d.inner_status_code),
        inner_diagnostic_info: match d.inner_diagnostic_info {
            None => None,
            Some(inner) => Some(Box::new(diagnostic_info_view(*inner))),
        },
    }
}

impl View for DiagnosticInfo {
    type V = DiagnosticInfoView;

    open spec fn view(&self) -> DiagnosticInfoView {
        diagnostic_info_view(*self)
    }
}

/// The diagnostic information with no part present.
pub open spec fn empty_diagnostic_info() -> DiagnosticInfoView {
    DiagnosticInfoView {
        symbolic_id: None,
        namespace_uri: None,
        locale: None,
        localized_text: None,
        additional_info: None,
        inner_status_code: None,
        inner_diagnostic_info: None,
    }
}

impl Clone for DiagnosticInfo {
    fn clone(&self) -> (r: Self)
        ensures
            r@ == self@,
    {
        self.duplicate()
    }
}

impl DiagnosticInfo {
    /// A copy of the diagnostic information, inner parts included.
    pub fn duplicate(&self) -> (r: DiagnosticInfo)
        ensures
            r@ == self@,
        decreases self,
    {
        let additional_info = match &self.additional_info {
            None => None,
            Some(s) => Some(s.clone()),
        };
        let inner_diagnostic_info = match &self.inner_diagnostic_info {
            None => None,
            Some(inner) => Some(Box::new(inner.duplicate())),
        };
        let r = DiagnosticInfo {
            symbolic_id: self.symbolic_id,
            namespace_uri: self.namespace_uri,
            locale: self.locale,
            localized_text: self.localized_text,
            additional_info,
            inner_status_code: self.inner_status_code,
            inner_diagnostic_info,
        };
        assert(option_view(r.additional_info) == option_view(self.additional_info));
        assert(diagnostic_info_view(r) == diagnostic_info_view(*self));
        r
    }

    /// Appends the mask and the parts in front of the inner diagnostic
    /// information to the stream.
    fn encode_head(&self, stream: &mut Vec<u8>, Ghost(start): Ghost<Seq<u8>>) -> (r:
        EncodingResult<()>)
        requires
            extends(old(stream)@, start),
        ensures
            optional_encodable::<UAString>(self@.additional_info) ==> r is Ok && final(stream)@
                == old(stream)@ + head_encoding(self@),
            !optional_encodable::<UAString>(self@.additional_info) ==> r == Err::<(), StatusCode>(
                StatusCode::BadEncodingLimitsExceeded,
            ),
            extends(final(stream)@, start),
    {
        let ghost v = self@;
        let ghost o = old(stream)@;
        let ghost m = seq![diagnostic_info_mask(v)];
        let ghost a = optional_encoding::<i32>(v.symbolic_id);
        let ghost b = optional_encoding::<i32>(v.namespace_uri);
        let ghost c = optional_encoding::<i32>(v.locale);
        let ghost d = optional_encoding::<i32>(v.localized_text);
        let ghost e = optional_encoding::<UAString>(v.additional_info);
        let ghost f = optional_encoding::<StatusCode>(v.inner_status_code);
        let mask: u8 = flag(self.symbolic_id.is_some(), 1) + flag(self.namespace_uri.is_some(), 2)
            + flag(self.localized_text.is_some(), 4) + flag(self.locale.is_some(), 8) + flag(
            self.additional_info.is_some(),
            16,
        ) + flag(self.inner_status_code.is_some(), 32) + flag(
            self.inner_diagnostic_info.is_some(),
            64,
        );
        assert(mask == diagnostic_info_mask(v));
        write_part(stream, &mask, Ghost(start))?;
        write_optional_part(stream, &self.symbolic_id, Ghost(start))?;
        write_optional_part(stream, &self.namespace_uri, Ghost(start))?;
        write_optional_part(stream, &self.locale, Ghost(start))?;
        write_optional_part(stream, &self.localized_text, Ghost(start))?;
        write_optional_part(stream, &self.additional_info, Ghost(start))?;
        write_optional_part(stream, &self.inner_status_code, Ghost(start))?;
        proof {
            lemma_concat_assoc(o, m, a);
            lemma_concat_assoc(o, m + a, b);
            lemma_concat_assoc(o, m + a + b, c);
            lemma_concat_assoc(o, m + a + b + c, d);
            lemma_concat_assoc(o, m + a + b + c + d, e);
            lemma_concat_assoc(o, m + a + b + c + d + e, f);
        }
        Ok(())
    }

    /// Reads the parts that the mask announces in front of the inner
    /// diagnostic information.
    fn decode_head(mask: u8, stream: &mut ReadStream, limits: &DecodingLimits) -> (r:
        EncodingResult<DiagnosticInfo>)
        ensures
            match head_decoding(mask, old(stream)@, *limits) {
                Ok((head, rest)) => r is Ok && r.unwrap()@ == with_inner(head, None)
                    && final(stream)@ == rest,
                Err(e) => r matches Err(x) && x == e,
            },
    {
        let symbolic_id = read_optional::<i32>(mask % 2 == 1, stream, limits)?;
        let namespace_uri = read_optional::<i32>((mask / 2) % 2 == 1, stream, limits)?;
        let locale = read_optional::<i32>((mask / 8) % 2 == 1, stream, limits)?;
        let localized_text = read_optional::<i32>((mask / 4) % 2 == 1, stream, limits)?;
        let additional_info = read_optional::<UAString>((mask / 16) % 2 == 1, stream, limits)?;
        let inner_status_code = read_optional::<StatusCode>((mask / 32) % 2 == 1, stream, limits)?;
        Ok(
            DiagnosticInfo {
                symbolic_id,
                namespace_uri,
                locale,
                localized_text,
                additional_info,
                inner_status_code,
                inner_diagnostic_info: None,
            },
        )
    }

    /// Diagnostic information with no part present.
    pub fn new() -> (r: DiagnosticInfo)
        ensures
            r@ == empty_diagnostic_info(),
    {
        DiagnosticInfo {
            symbolic_id: None,
            namespace_uri: None,
            locale: None,
            localized_text: None,
            additional_info: None,
            inner_status_code: None,
            inner_diagnostic_info: None,
        }
    }
}

/// 1 where the condition holds, 0 else.
pub open spec fn bit(present: bool) -> int {
    if present {
        1
    } else {
        0
    }
}

/// The byte that says which parts follow: 1 for the symbolic id, 2 for the
/// namespace, 4 for the text, 8 for the locale, 16 for the additional
/// information, 32 for the inner status code and 64 for the inner diagnostic
/// information.
pub open spec fn diagnostic_info_mask(v: DiagnosticInfoView) -> u8 {
    (bit(v.symbolic_id is Some) + 2 * bit(v.namespace_uri is Some) + 4 * bit(
        v.localized_text is Some,
    ) + 8 * bit(v.locale is Some) + 16 * bit(v.additional_info is Some) + 32 * bit(
        v.inner_status_code is Some,
    ) + 64 * bit(v.inner_diagnostic_info is Some)) as u8
}

/// `value` where the condition holds, 0 else.
fn flag(present: bool, value: u8) -> (r: u8)
    ensures
        r == value * bit(present),
{
    if present {
        value
    } else {
        0
    }
}

/// The parts in front of the inner diagnostic information.
pub struct DiagnosticInfoHead {
    pub symbolic_id: Option<i32>,
    pub namespace_uri: Option<i32>,
    pub locale: Option<i32>,
    pub localized_text: Option<i32>,
    pub additional_info: Option<Option<Seq<char>>>,
    pub inner_status_code: Option<StatusCode>,
}

/// The parts of `v` in front of its inner diagnostic information.
pub open spec fn head_of(v: DiagnosticInfoView) -> DiagnosticInfoHead {
    DiagnosticInfoHead {
        symbolic_id: v.symbolic_id,
        namespace_uri: v.namespace_uri,
        locale: v.locale,
        localized_text: v.localized_text,
        additional_info: v.additional_info,
        inner_status_code: v.inner_status_code,
    }
}

/// The diagnostic information made of a head and an inner part.
pub open spec fn with_inner(
    head: DiagnosticInfoHead,
    inner: Option<Box<DiagnosticInfoView>>,
) -> DiagnosticInfoView {
    DiagnosticInfoView {
        symbolic_id: head.symbolic_id,
        namespace_uri: head.namespace_uri,
        locale: head.locale,
        localized_text: head.localized_text,
        additional_info: head.additional_info,
        inner_status_code: head.inner_status_code,
        inner_diagnostic_info: inner,
    }
}

/// Wire form of the mask and the parts in front of the inner diagnostic
/// information.
pub open spec fn head_encoding(v: DiagnosticInfoView) -> Seq<u8> {
    seq![diagnostic_info_mask(v)] + optional_encoding::<i32>(v.symbolic_id) + optional_encoding::<
        i32,
    >(v.namespace_uri) + optional_encoding::<i32>(v.locale) + optional_encoding::<i32>(
        v.localized_text,
    ) + optional_encoding::<UAString>(v.additional_info) + optional_encoding::<StatusCode>(
        v.inner_status_code,
    )
}

/// Wire form of the inner diagnostic information: nothing where there is
/// none.
pub open spec fn inner_encoding(v: Option<Box<DiagnosticInfoView>>) -> Seq<u8>
    decreases v,
{
    match v {
        None => Seq::empty(),
        Some(inner) => diagnostic_info_encoding(*inner),
    }
}

/// Wire form of diagnostic information: the mask, then the parts that are
/// present, in the order symbolic id, namespace, locale, text, additional
/// information, inner status code, inner diagnostic information.
pub open spec fn diagnostic_info_encoding(v: DiagnosticInfoView) -> Seq<u8>
    decreases v,
{
    head_encoding(v) + inner_encoding(v.inner_diagnostic_info)
}

pub open spec fn diagnostic_info_encodable(v: DiagnosticInfoView) -> bool
    decreases v,
{
    &&& optional_encodable::<UAString>(v.additional_info)
    &&& v.inner_diagnostic_info matches Some(inner) ==> diagnostic_info_encodable(*inner)
}

pub open spec fn diagnostic_info_within(v: DiagnosticInfoView, limits: DecodingLimits) -> bool
    decreases v,
{
    &&& optional_within::<UAString>(v.additional_info, limits)
    &&& v.inner_diagnostic_info matches Some(inner) ==> diagnostic_info_within(*inner, limits)
}

/// The parts that the mask announces in front of the inner diagnostic
/// information, off the front of `s`.
pub open spec fn head_decoding(mask: u8, s: Seq<u8>, limits: DecodingLimits) -> Result<
    (DiagnosticInfoHead, Seq<u8>),
    StatusCode,
> {
    match optional_decoding::<i32>(mask % 2 == 1, s, limits) {
        Err(e) => Err(e),
        Ok((symbolic_id, s)) => match optional_decoding::<i32>((mask / 2) % 2 == 1, s, limits) {
            Err(e) => Err(e),
            Ok((namespace_uri, s)) => match optional_decoding::<i32>(
                (mask / 8) % 2 == 1,
                s,
                limits,
            ) {
                Err(e) => Err(e),
                Ok((locale, s)) => match optional_decoding::<i32>((mask / 4) % 2 == 1, s, limits) {
                    Err(e) => Err(e),
                    Ok((localized_text, s)) => match optional_decoding::<UAString>(
                        (mask / 16) % 2 == 1,
                        s,
                        limits,
                    ) {
                        Err(e) => Err(e),
                        Ok((additional_info, s)) => match optional_decoding::<StatusCode>(
                            (mask / 32) % 2 == 1,
                            s,
                            limits,
                        ) {
                            Err(e) => Err(e),
                            Ok((inner_status_code, s)) => Ok(
                                (
                                    DiagnosticInfoHead {
                                        symbolic_id,
                                        namespace_uri,
                                        locale,
                                        localized_text,
                                        additional_info,
                                        inner_status_code,
                                    },
                                    s,
                                ),
                            ),
                        },
                    },
                },
            },
        },
    }
}

/// Reading a part never leaves more bytes than it was given.
proof fn lemma_part_shrinks(present: bool, s: Seq<u8>, limits: DecodingLimits)
    ensures
        optional_decoding::<i32>(present, s, limits) matches Ok((_, rest)) ==> rest.len()
            <= s.len(),
        optional_decoding::<UAString>(present, s, limits) matches Ok((_, rest)) ==> rest.len()
            <= s.len(),
        optional_decoding::<StatusCode>(present, s, limits) matches Ok((_, rest)) ==> rest.len()
            <= s.len(),
{
    reveal(string_decoding);
    reveal(bytes_decoding);
    reveal(status_code_decoding);
}

/// Reading the head never leaves more bytes than it was given.
pub proof fn lemma_head_decoding_shrinks(mask: u8, s: Seq<u8>, limits: DecodingLimits)
    ensures
        head_decoding(mask, s, limits) matches Ok((_, rest)) ==> rest.len() <= s.len(),
{
    if let Ok((_, s1)) = optional_decoding::<i32>(mask % 2 == 1, s, limits) {
        lemma_part_shrinks(mask % 2 == 1, s, limits);
        if let Ok((_, s2)) = optional_decoding::<i32>((mask / 2) % 2 == 1, s1, limits) {
            lemma_part_shrinks((mask / 2) % 2 == 1, s1, limits);
            if let Ok((_, s3)) = optional_decoding::<i32>((mask / 8) % 2 == 1, s2, limits) {
                lemma_part_shrinks((mask / 8) % 2 == 1, s2, limits);
                if let Ok((_, s4)) = optional_decoding::<i32>((mask / 4) % 2 == 1, s3, limits) {
                    lemma_part_shrinks((mask / 4) % 2 == 1, s3, limits);
                    if let Ok((_, s5)) = optional_decoding::<UAString>(
                        (mask / 16) % 2 == 1,
                        s4,
                        limits,
                    ) {
                        lemma_part_shrinks((mask / 16) % 2 == 1, s4, limits);
                        lemma_part_shrinks((mask / 32) % 2 == 1, s5, limits);
                    }
                }
            }
        }
    }
}

/// Diagnostic information off the front of `s`. Bit 128 of the mask is not
/// read.
pub open spec fn diagnostic_info_decoding(s: Seq<u8>, limits: DecodingLimits) -> Result<
    (DiagnosticInfoView, Seq<u8>),
    StatusCode,
>
    decreases s.len(),
{
    match u8::decoding(s, limits) {
        Err(e) => Err(e),
        Ok((mask, s1)) => match head_decoding(mask, s1, limits) {
            Err(e) => Err(e),
            Ok((head, s2)) => if (mask / 64) % 2 == 1 {
                proof {
                    lemma_head_decoding_shrinks(mask, s1, limits);
                }
                match diagnostic_info_decoding(s2, limits) {
                    Err(e) => Err(e),
                    Ok((inner, s3)) => Ok((with_inner(head, Some(Box::new(inner))), s3)),
                }
            } else {
                Ok((with_inner(head, None), s2))
            },
        },
    }
}

/// Each bit of the mask says whether its part is present.
pub proof fn lemma_mask_bits(v: DiagnosticInfoView)
    ensures
        (diagnostic_info_mask(v) % 2 == 1) == (v.symbolic_id is Some),
        ((diagnostic_info_mask(v) / 2) % 2 == 1) == (v.namespace_uri is Some),
        ((diagnostic_info_mask(v) / 4) % 2 == 1) == (v.localized_text is Some),
        ((diagnostic_info_mask(v) / 8) % 2 == 1) == (v.locale is Some),
        ((diagnostic_info_mask(v) / 16) % 2 == 1) == (v.additional_info is Some),
        ((diagnostic_info_mask(v) / 32) % 2 == 1) == (v.inner_status_code is Some),
        ((diagnostic_info_mask(v) / 64) % 2 == 1) == (v.inner_diagnostic_info is Some),
{
}

/// The head is read back from the wire forms of its parts.
pub proof fn lemma_head_round_trip(v: DiagnosticInfoView, rest: Seq<u8>, limits: DecodingLimits)
    requires
        optional_encodable::<UAString>(v.additional_info),
        optional_within::<UAString>(v.additional_info, limits),
    ensures
        head_decoding(
            diagnostic_info_mask(v),
            optional_encoding::<i32>(v.symbolic_id) + (optional_encoding::<i32>(v.namespace_uri) + (
            optional_encoding::<i32>(v.locale) + (optional_encoding::<i32>(v.localized_text) + (
            optional_encoding::<UAString>(v.additional_info) + (optional_encoding::<StatusCode>(
                v.inner_status_code,
            ) + rest))))),
            limits,
        ) == Ok::<(DiagnosticInfoHead, Seq<u8>), StatusCode>((head_of(v), rest)),
{
    let mask = diagnostic_info_mask(v);
    lemma_mask_bits(v);
    let r5 = optional_encoding::<StatusCode>(v.inner_status_code) + rest;
    let r4 = optional_encoding::<UAString>(v.additional_info) + r5;
    let r3 = optional_encoding::<i32>(v.localized_text) + r4;
    let r2 = optional_encoding::<i32>(v.locale) + r3;
    let r1 = optional_encoding::<i32>(v.namespace_uri) + r2;
    let r0 = optional_encoding::<i32>(v.symbolic_id) + r1;
    lemma_optional_round_trip::<i32>(v.symbolic_id, r1, limits);
    lemma_optional_round_trip::<i32>(v.namespace_uri, r2, limits);
    lemma_optional_round_trip::<i32>(v.locale, r3, limits);
    lemma_optional_round_trip::<i32>(v.localized_text, r4, limits);
    lemma_optional_round_trip::<UAString>(v.additional_info, r5, limits);
    lemma_optional_round_trip::<StatusCode>(v.inner_status_code, rest, limits);
}

/// Diagnostic information is read back from its wire form.
pub proof fn lemma_diagnostic_info_round_trip(
    v: DiagnosticInfoView,
    rest: Seq<u8>,
    limits: DecodingLimits,
)
    requires
        diagnostic_info_encodable(v),
        diagnostic_info_within(v, limits),
    ensures
        diagnostic_info_decoding(diagnostic_info_encoding(v) + rest, limits) == Ok::<
            (DiagnosticInfoView, Seq<u8>),
            StatusCode,
        >((v, rest)),
    decreases v,
{
    let mask = diagnostic_info_mask(v);
    let p0 = seq![mask];
    let p1 = optional_encoding::<i32>(v.symbolic_id);
    let p2 = optional_encoding::<i32>(v.namespace_uri);
    let p3 = optional_encoding::<i32>(v.locale);
    let p4 = optional_encoding::<i32>(v.localized_text);
    let p5 = optional_encoding::<UAString>(v.additional_info);
    let p6 = optional_encoding::<StatusCode>(v.inner_status_code);
    let p7 = inner_encoding(v.inner_diagnostic_info);
    let r7 = p7 + rest;
    let r6 = p6 + r7;
    let r5 = p5 + r6;
    let r4 = p4 + r5;
    let r3 = p3 + r4;
    let r2 = p2 + r3;
    let r1 = p1 + r2;
    lemma_concat_assoc(p0 + p1 + p2 + p3 + p4 + p5 + p6, p7, rest);
    lemma_concat_assoc(p0 + p1 + p2 + p3 + p4 + p5, p6, r7);
    lemma_concat_assoc(p0 + p1 + p2 + p3 + p4, p5, r6);
    lemma_concat_assoc(p0 + p1 + p2 + p3, p4, r5);
    lemma_concat_assoc(p0 + p1 + p2, p3, r4);
    lemma_concat_assoc(p0 + p1, p2, r3);
    lemma_concat_assoc(p0, p1, r2);
    let s = diagnostic_info_encoding(v) + rest;
    assert(s == p0 + r1);
    assert(s.skip(1) =~= r1);
    assert(s[0] == mask);
    lemma_head_round_trip(v, r7, limits);
    lemma_mask_bits(v);
    match v.inner_diagnostic_info {
        None => {
            assert(r7 =~= rest);
            assert(with_inner(head_of(v), None) == v);
        },
        Some(inner) => {
            lemma_diagnostic_info_round_trip(*inner, rest, limits);
            assert(with_inner(head_of(v), Some(Box::new(*inner))) == v);
        },
    }
}

impl BinaryEncoder for DiagnosticInfo {
    open spec fn encoding(v: DiagnosticInfoView) -> Seq<u8> {
        diagnostic_info_encoding(v)
    }

    open spec fn encodable(v: DiagnosticInfoView) -> bool {
        diagnostic_info_encodable(v)
    }

    open spec fn within(v: DiagnosticInfoView, limits: DecodingLimits) -> bool {
        diagnostic_info_within(v, limits)
    }

    open spec fn decoding(s: Seq<u8>, limits: DecodingLimits) -> Result<
        (DiagnosticInfoView, Seq<u8>),
        StatusCode,
    > {
        diagnostic_info_decoding(s, limits)
    }

    proof fn lemma_round_trip(v: DiagnosticInfoView, rest: Seq<u8>, limits: DecodingLimits) {
        lemma_diagnostic_info_round_trip(v, rest, limits);
    }

    fn byte_len(&self) -> (r: usize)
        decreases self,
    {
        let ghost v = self@;
        let ghost e0 = seq![diagnostic_info_mask(v)];
        let ghost e1 = e0 + optional_encoding::<i32>(v.symbolic_id);
        let ghost e2 = e1 + optional_encoding::<i32>(v.namespace_uri);
        let ghost e3 = e2 + optional_encoding::<i32>(v.locale);
        let ghost e4 = e3 + optional_encoding::<i32>(v.localized_text);
        let ghost e5 = e4 + optional_encoding::<UAString>(v.additional_info);
        let ghost e6 = e5 + optional_encoding::<StatusCode>(v.inner_status_code);
        let mut size: usize = 1;
        size = add_len(size, byte_len_optional(&self.symbolic_id));
        assert(size == saturated(e1.len()));
        size = add_len(size, byte_len_optional(&self.namespace_uri));
        assert(size == saturated(e2.len()));
        size = add_len(size, byte_len_optional(&self.locale));
        assert(size == saturated(e3.len()));
        size = add_len(size, byte_len_optional(&self.localized_text));
        assert(size == saturated(e4.len()));
        size = add_len(size, byte_len_optional(&self.additional_info));
        assert(size == saturated(e5.len()));
        size = add_len(size, byte_len_optional(&self.inner_status_code));
        assert(size == saturated(e6.len()));
        match &self.inner_diagnostic_info {
            None => {
                assert(e6 + inner_encoding(v.inner_diagnostic_info) =~= e6);
                size
            },
            Some(inner) => {
                assert(inner_encoding(v.inner_diagnostic_info) == diagnostic_info_encoding(inner@));
                add_len(size, inner.byte_len())
            },
        }
    }

    fn encode(&self, stream: &mut Vec<u8>) -> (r: EncodingResult<usize>)
        decreases self,
    {
        let ghost v = self@;
        let ghost o = stream@;
        let start = stream.len();
        proof {
            lemma_extends_refl(o);
        }
        self.encode_head(stream, Ghost(o))?;
        let ghost head = stream@;
        match &self.inner_diagnostic_info {
            None => {
                assert(head + inner_encoding(v.inner_diagnostic_info) =~= head);
            },
            Some(inner) => {
                assert(inner_encoding(v.inner_diagnostic_info) == diagnostic_info_encoding(inner@));
                match inner.encode(stream) {
                    Ok(_) => {},
                    Err(e) => {
                        proof {
                            lemma_extends_trans(o, head, stream@);
                        }
                        return Err(e);
                    },
                }
            },
        }
        proof {
            lemma_concat_assoc(o, head_encoding(v), inner_encoding(v.inner_diagnostic_info));
        }
        Ok(stream.len() - start)
    }

    fn decode(stream: &mut ReadStream, limits: &DecodingLimits) -> (r: EncodingResult<Self>)
        decreases old(stream)@.len(),
    {
        let mask = read_u8(stream)?;
        let ghost s1 = stream@;
        let mut info = DiagnosticInfo::decode_head(mask, stream, limits)?;
        proof {
            lemma_head_decoding_shrinks(mask, s1, *limits);
        }
        if (mask / 64) % 2 == 1 {
            info.inner_diagnostic_info = Some(Box::new(DiagnosticInfo::decode(stream, limits)?));
        }
        Ok(info)
    }
}

} // verus!
