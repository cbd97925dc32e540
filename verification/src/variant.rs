//! Variants: values of any of the built-in types, alone or in arrays, and
//! data values: a variant with its status and time stamps.

use vstd::prelude::*;
use crate::byte_string::ByteString;
use crate::date_time::DateTime;
use crate::encoding::{
    BinaryEncoder, DecodingLimits, EncodingResult, MAX_WIRE_LENGTH, ReadStream, add_len,
    array_decoding, array_encoding, extends, lemma_array_round_trip, lemma_concat_assoc,
    lemma_extends_refl, lemma_i32_round_trip, lemma_optional_round_trip, optional_decoding,
    read_array, read_i32, read_optional, read_u8, saturated, seq_view, write_part,
};
use crate::extension_object::{ExtensionObject, ExtensionObjectView};
use crate::guid::Guid;
use crate::localized_text::{LocalizedText, LocalizedTextView};
use crate::node_id::{NodeId, NodeIdView};
use crate::node_ids::DataTypeId;
use crate::qualified_name::{QualifiedName, QualifiedNameView};
use crate::status_codes::StatusCode;
use crate::string::UAString;

verus! {

/// A value of one of the built-in types, or an array of such values. A
/// floating point number is held as the bits of its IEEE 754 form, which is
/// what travels.
#[derive(Debug, PartialEq, Eq)]
pub enum Variant {
    /// No value.
    Empty,
    Boolean(bool),
    SByte(i8),
    Byte(u8),
    Int16(i16),
    UInt16(u16),
    Int32(i32),
    UInt32(u32),
    Int64(i64),
    UInt64(u64),
    Float(u32),
    Double(u64),
    String(UAString),
    DateTime(DateTime),
    Guid(Guid),
    ByteString(ByteString),
    XmlElement(UAString),
    NodeId(Box<NodeId>),
    StatusCode(StatusCode),
    QualifiedName(Box<QualifiedName>),
    LocalizedText(Box<LocalizedText>),
    ExtensionObject(Box<ExtensionObject>),
    DataValue(Box<DataValue>),
    /// An array of values of one type.
    Array(Vec<Variant>),
    /// An array of values of one type, laid out in several dimensions.
    MultiDimensionArray(Box<MultiDimensionArray>),
}

/// The values of an array of several dimensions, and the length of each
/// dimension.
#[derive(Debug, PartialEq, Eq)]
pub struct MultiDimensionArray {
    pub values: Vec<Variant>,
    pub dimensions: Vec<i32>,
}

/// A value with the status and the time stamps of its source and of the
/// server.
#[derive(Debug, PartialEq, Eq)]
pub struct DataValue {
    pub value: Box<Variant>,
    pub status: StatusCode,
    pub source_timestamp: DateTime,
    pub source_pico_seconds: i16,
    pub server_timestamp: DateTime,
    pub server_pico_seconds: i16,
}

/// The value of a `Variant`.
pub enum VariantView {
    Empty,
    Boolean(bool),
    SByte(i8),
    Byte(u8),
    Int16(i16),
    UInt16(u16),
    Int32(i32),
    UInt32(u32),
    Int64(i64),
    UInt64(u64),
    Float(u32),
    Double(u64),
    String(Option<Seq<char>>),
    DateTime(i64),
    Guid(Guid),
    ByteString(Option<Seq<u8>>),
    XmlElement(Option<Seq<char>>),
    NodeId(NodeIdView),
    StatusCode(StatusCode),
    QualifiedName(QualifiedNameView),
    LocalizedText(LocalizedTextView),
    ExtensionObject(ExtensionObjectView),
    DataValue(Box<DataValueView>),
    Array(Seq<VariantView>),
    MultiDimensionArray(Seq<VariantView>, Seq<i32>),
}

/// The value of a `DataValue`.
pub struct DataValueView {
    pub value: Box<VariantView>,
    pub status: StatusCode,
    pub source_timestamp: i64,
    pub source_pico_seconds: i16,
    pub server_timestamp: i64,
    pub server_pico_seconds: i16,
}

/// The value that a variant stands for.
pub open spec fn variant_view(v: Variant) -> VariantView
    decreases v,
{
    match v {
        Variant::Empty => VariantView::Empty,
        Variant::Boolean(x) => VariantView::Boolean(x),
        Variant::SByte(x) => VariantView::SByte(x),
        Variant::Byte(x) => VariantView::Byte(x),
        Variant::Int16(x) => VariantView::Int16(x),
        Variant::UInt16(x) => VariantView::UInt16(x),
        Variant::Int32(x) => VariantView::Int32(x),
        Variant::UInt32(x) => VariantView::UInt32(x),
        Variant::Int64(x) => VariantView::Int64(x),
        Variant::UInt64(x) => VariantView::UInt64(x),
        Variant::Float(x) => VariantView::Float(x),
        Variant::Double(x) => VariantView::Double(x),
        Variant::String(x) => VariantView::String(x@),
        Variant::DateTime(x) => VariantView::DateTime(x@),
        Variant::Guid(x) => VariantView::Guid(x),
        Variant::ByteString(x) => VariantView::ByteString(x@),
        Variant::XmlElement(x) => VariantView::XmlElement(x@),
        Variant::NodeId(x) => VariantView::NodeId(x@),
        Variant::StatusCode(x) => VariantView::StatusCode(x),
        Variant::QualifiedName(x) => VariantView::QualifiedName(x@),
        Variant::LocalizedText(x) => VariantView::LocalizedText(x@),
        Variant::ExtensionObject(x) => VariantView::ExtensionObject(x@),
        Variant::DataValue(x) => VariantView::DataValue(Box::new(data_value_view(*x))),
        Variant::Array(values) => VariantView::Array(variants_view(values@)),
        Variant::MultiDimensionArray(a) => VariantView::MultiDimensionArray(
            variants_view(a.values@),
            a.dimensions@,
        ),
    }
}

/// The values that the variants of a sequence stand for.
pub open spec fn variants_view(values: Seq<Variant>) -> Seq<VariantView>
    decreases values,
{
    if values.len() == 0 {
        Seq::empty()
    } else {
        variants_view(values.drop_last()).push(variant_view(values.last()))
    }
}

/// The value that a data value stands for.
pub open spec fn data_value_view(v: DataValue) -> DataValueView
    decreases v,
{
    DataValueView {
        value: Box::new(variant_view(*v.value)),
        status: v.status,
        source_timestamp: v.source_timestamp@,
        source_pico_seconds: v.source_pico_seconds,
        server_timestamp: v.server_timestamp@,
        server_pico_seconds: v.server_pico_seconds,
    }
}

impl View for Variant {
    type V = VariantView;

    open spec fn view(&self) -> VariantView {
        variant_view(*self)
    }
}

impl View for DataValue {
    type V = DataValueView;

    open spec fn view(&self) -> DataValueView {
        data_value_view(*self)
    }
}

/// The values of a sequence of variants, one for one.
pub proof fn lemma_variants_view(values: Seq<Variant>)
    ensures
        variants_view(values).len() == values.len(),
        forall|i: int| 0 <= i < values.len() ==> variants_view(values)[i] == variant_view(values[i]),
    decreases values,
{
    if values.len() > 0 {
        lemma_variants_view(values.drop_last());
    }
}

/// The number that names the type of a value that is not an array; 0 for no
/// value and for arrays.
pub open spec fn scalar_type_id(v: VariantView) -> u8 {
    match v {
        VariantView::Boolean(_) => 1,
        VariantView::SByte(_) => 2,
        VariantView::Byte(_) => 3,
        VariantView::Int16(_) => 4,
        VariantView::UInt16(_) => 5,
        VariantView::Int32(_) => 6,
        VariantView::UInt32(_) => 7,
        VariantView::Int64(_) => 8,
        VariantView::UInt64(_) => 9,
        VariantView::Float(_) => 10,
        VariantView::Double(_) => 11,
        VariantView::String(_) => 12,
        VariantView::DateTime(_) => 13,
        VariantView::Guid(_) => 14,
        VariantView::ByteString(_) => 15,
        VariantView::XmlElement(_) => 16,
        VariantView::NodeId(_) => 17,
        VariantView::StatusCode(_) => 19,
        VariantView::QualifiedName(_) => 20,
        VariantView::LocalizedText(_) => 21,
        VariantView::ExtensionObject(_) => 22,
        VariantView::DataValue(_) => 23,
        _ => 0,
    }
}

/// The value is one value of a built-in type: not empty and not an array.
pub open spec fn is_scalar(v: VariantView) -> bool {
    !(v is Empty) && !(v is Array) && !(v is MultiDimensionArray)
}

/// The number that names the type of the values of an array: that of the
/// first value, and 0 for an array without values.
pub open spec fn array_type_id(values: Seq<VariantView>) -> u8 {
    if values.len() == 0 {
        0
    } else {
        scalar_type_id(values[0])
    }
}

/// Wire form of one value of a built-in type, without the byte that names
/// the type.
pub open spec fn scalar_encoding(v: VariantView) -> Seq<u8>
    decreases v, 0nat,
{
    match v {
        VariantView::Boolean(x) => bool::encoding(x),
        VariantView::SByte(x) => i8::encoding(x),
        VariantView::Byte(x) => u8::encoding(x),
        VariantView::Int16(x) => i16::encoding(x),
        VariantView::UInt16(x) => u16::encoding(x),
        VariantView::Int32(x) => i32::encoding(x),
        VariantView::UInt32(x) => u32::encoding(x),
        VariantView::Int64(x) => i64::encoding(x),
        VariantView::UInt64(x) => u64::encoding(x),
        VariantView::Float(x) => u32::encoding(x),
        VariantView::Double(x) => u64::encoding(x),
        VariantView::String(x) => UAString::encoding(x),
        VariantView::DateTime(x) => DateTime::encoding(x),
        VariantView::Guid(x) => Guid::encoding(x),
        VariantView::ByteString(x) => ByteString::encoding(x),
        VariantView::XmlElement(x) => UAString::encoding(x),
        VariantView::NodeId(x) => NodeId::encoding(x),
        VariantView::StatusCode(x) => StatusCode::encoding(x),
        VariantView::QualifiedName(x) => QualifiedName::encoding(x),
        VariantView::LocalizedText(x) => LocalizedText::encoding(x),
        VariantView::ExtensionObject(x) => ExtensionObject::encoding(x),
        VariantView::DataValue(x) => data_value_encoding(*x),
        _ => Seq::empty(),
    }
}

/// The wire forms of the values, one behind the other.
pub open spec fn scalars_encoding(values: Seq<VariantView>) -> Seq<u8>
    decreases values, 0nat,
{
    if values.len() == 0 {
        Seq::empty()
    } else {
        scalar_encoding(values[0]) + scalars_encoding(values.skip(1))
    }
}

/// Wire form of a variant. The first byte names the type of the value in its
/// six low bits; bit 128 says that an array follows, which is the number of
/// values and the values, and bit 64 that the lengths of the dimensions of
/// the array follow the values.
pub open spec fn variant_encoding(v: VariantView) -> Seq<u8>
    decreases v, 1nat,
{
    match v {
        VariantView::Array(values) => seq![(array_type_id(values) + 128) as u8] + i32::encoding(
            values.len() as i32,
        ) + scalars_encoding(values),
        VariantView::MultiDimensionArray(values, dimensions) => seq![
            (array_type_id(values) + 192) as u8,
        ] + i32::encoding(values.len() as i32) + scalars_encoding(values) + array_encoding::<i32>(
            Some(dimensions),
        ),
        _ => seq![scalar_type_id(v)] + scalar_encoding(v),
    }
}

/// Wire form of a data value: a mask that announces all six parts, then the
/// value, the status, and the time stamp and the picoseconds of the source
/// and of the server.
pub open spec fn data_value_encoding(v: DataValueView) -> Seq<u8>
    decreases v, 0nat,
{
    seq![0x3fu8] + variant_encoding(*v.value) + StatusCode::encoding(v.status) + DateTime::encoding(
        v.source_timestamp,
    ) + i16::encoding(v.source_pico_seconds) + DateTime::encoding(v.server_timestamp)
        + i16::encoding(v.server_pico_seconds)
}

/// Whether one value of a built-in type can travel.
pub open spec fn scalar_encodable(v: VariantView) -> bool
    decreases v, 0nat,
{
    match v {
        VariantView::String(x) => UAString::encodable(x),
        VariantView::DateTime(x) => DateTime::encodable(x),
        VariantView::ByteString(x) => ByteString::encodable(x),
        VariantView::XmlElement(x) => UAString::encodable(x),
        VariantView::NodeId(x) => NodeId::encodable(x),
        VariantView::QualifiedName(x) => QualifiedName::encodable(x),
        VariantView::LocalizedText(x) => LocalizedText::encodable(x),
        VariantView::ExtensionObject(x) => ExtensionObject::encodable(x),
        VariantView::DataValue(x) => data_value_encodable(*x),
        _ => true,
    }
}

/// Whether the values can travel as the values of an array of the type that
/// `type_id` names: each is one value of that type, and can travel.
pub open spec fn scalars_encodable(values: Seq<VariantView>, type_id: u8) -> bool
    decreases values, 0nat,
{
    forall|i: int|
        0 <= i < values.len() ==> is_scalar(#[trigger] values[i]) && scalar_type_id(values[i])
            == type_id && scalar_encodable(values[i])
}

/// Whether a variant can travel. An array can where its values are of one
/// type and neither empty nor arrays.
pub open spec fn variant_encodable(v: VariantView) -> bool
    decreases v, 1nat,
{
    match v {
        VariantView::Array(values) => values.len() <= MAX_WIRE_LENGTH && scalars_encodable(
            values,
            array_type_id(values),
        ),
        VariantView::MultiDimensionArray(values, dimensions) => values.len() <= MAX_WIRE_LENGTH
            && dimensions.len() <= MAX_WIRE_LENGTH && scalars_encodable(
            values,
            array_type_id(values),
        ),
        _ => scalar_encodable(v),
    }
}

pub open spec fn data_value_encodable(v: DataValueView) -> bool
    decreases v, 0nat,
{
    variant_encodable(*v.value) && DateTime::encodable(v.source_timestamp) && DateTime::encodable(
        v.server_timestamp,
    )
}

impl Variant {
    /// The number that names the type of the value.
    pub fn type_id(&self) -> (r: u8)
        ensures
            r == scalar_type_id(self@),
    {
        match self {
            Variant::Boolean(_) => 1,
            Variant::SByte(_) => 2,
            Variant::Byte(_) => 3,
            Variant::Int16(_) => 4,
            Variant::UInt16(_) => 5,
            Variant::Int32(_) => 6,
            Variant::UInt32(_) => 7,
            Variant::Int64(_) => 8,
            Variant::UInt64(_) => 9,
            Variant::Float(_) => 10,
            Variant::Double(_) => 11,
            Variant::String(_) => 12,
            Variant::DateTime(_) => 13,
            Variant::Guid(_) => 14,
            Variant::ByteString(_) => 15,
            Variant::XmlElement(_) => 16,
            Variant::NodeId(_) => 17,
            Variant::StatusCode(_) => 19,
            Variant::QualifiedName(_) => 20,
            Variant::LocalizedText(_) => 21,
            Variant::ExtensionObject(_) => 22,
            Variant::DataValue(_) => 23,
            _ => 0,
        }
    }

    /// Tests for one value of a built-in type.
    pub fn is_scalar(&self) -> (r: bool)
        ensures
            r == is_scalar(self@),
    {
        match self {
            Variant::Empty => false,
            Variant::Array(_) => false,
            Variant::MultiDimensionArray(_) => false,
            _ => true,
        }
    }

    /// Tests for no value.
    pub fn is_empty(&self) -> (r: bool)
        ensures
            r == (self@ is Empty),
    {
        match self {
            Variant::Empty => true,
            _ => false,
        }
    }

    /// Tests for an array, of one or of several dimensions.
    pub fn is_array(&self) -> (r: bool)
        ensures
            r == (self@ is Array || self@ is MultiDimensionArray),
    {
        match self {
            Variant::Array(_) => true,
            Variant::MultiDimensionArray(_) => true,
            _ => false,
        }
    }
}

/// Appends the wire form of one value of a built-in type, without the byte
/// that names the type, to the stream.
fn encode_scalar(v: &Variant, stream: &mut Vec<u8>, Ghost(start): Ghost<Seq<u8>>) -> (r:
    EncodingResult<usize>)
    requires
        extends(old(stream)@, start),
    ensures
        scalar_encodable(v@) ==> r is Ok && final(stream)@ == old(stream)@ + scalar_encoding(v@),
        !scalar_encodable(v@) ==> r == Err::<usize, StatusCode>(
            StatusCode::BadEncodingLimitsExceeded,
        ),
        extends(final(stream)@, start),
    decreases v, 0nat,
{
    match v {
        Variant::Boolean(x) => write_part(stream, x, Ghost(start)),
        Variant::SByte(x) => write_part(stream, x, Ghost(start)),
        Variant::Byte(x) => write_part(stream, x, Ghost(start)),
        Variant::Int16(x) => write_part(stream, x, Ghost(start)),
        Variant::UInt16(x) => write_part(stream, x, Ghost(start)),
        Variant::Int32(x) => write_part(stream, x, Ghost(start)),
        Variant::UInt32(x) => write_part(stream, x, Ghost(start)),
        Variant::Int64(x) => write_part(stream, x, Ghost(start)),
        Variant::UInt64(x) => write_part(stream, x, Ghost(start)),
        Variant::Float(x) => write_part(stream, x, Ghost(start)),
        Variant::Double(x) => write_part(stream, x, Ghost(start)),
        Variant::String(x) => write_part(stream, x, Ghost(start)),
        Variant::DateTime(x) => write_part(stream, x, Ghost(start)),
        Variant::Guid(x) => write_part(stream, x, Ghost(start)),
        Variant::ByteString(x) => write_part(stream, x, Ghost(start)),
        Variant::XmlElement(x) => write_part(stream, x, Ghost(start)),
        Variant::NodeId(x) => write_part(stream, &**x, Ghost(start)),
        Variant::StatusCode(x) => write_part(stream, x, Ghost(start)),
        Variant::QualifiedName(x) => write_part(stream, &**x, Ghost(start)),
        Variant::LocalizedText(x) => write_part(stream, &**x, Ghost(start)),
        Variant::ExtensionObject(x) => write_part(stream, &**x, Ghost(start)),
        Variant::DataValue(x) => encode_data_value(x, stream, Ghost(start)),
        _ => {
            assert(stream@ + Seq::<u8>::empty() =~= stream@);
            Ok(0)
        },
    }
}

/// Appends the wire forms of the values of an array to the stream.
fn encode_scalars(
    values: &Vec<Variant>,
    type_id: u8,
    stream: &mut Vec<u8>,
    Ghost(start): Ghost<Seq<u8>>,
) -> (r: EncodingResult<usize>)
    requires
        extends(old(stream)@, start),
    ensures
        scalars_encodable(variants_view(values@), type_id) ==> r is Ok && final(stream)@
            == old(stream)@ + scalars_encoding(variants_view(values@)),
        !scalars_encodable(variants_view(values@), type_id) ==> r == Err::<usize, StatusCode>(
            StatusCode::BadEncodingLimitsExceeded,
        ),
        extends(final(stream)@, start),
    decreases values, 1nat,
{
    let ghost views = variants_view(values@);
    let ghost o = stream@;
    proof {
        lemma_variants_view(values@);
        assert(views.take(0) =~= Seq::<VariantView>::empty());
        assert(o + Seq::<u8>::empty() =~= o);
    }
    let mut i: usize = 0;
    while i < values.len()
        invariant
            i <= values.len(),
            views == variants_view(values@),
            views.len() == values.len(),
            forall|k: int| 0 <= k < values.len() ==> views[k] == variant_view(values[k]),
            o == old(stream)@,
            extends(stream@, start),
            scalars_encodable(views.take(i as int), type_id),
            stream@ == o + scalars_encoding(views.take(i as int)),
        decreases values.len() - i,
    {
        let value = &values[i];
        proof {
            lemma_scalars_encoding_push(views.take(i as int), views[i as int]);
            assert(views.take(i as int).push(views[i as int]) =~= views.take(i + 1));
        }
        if !value.is_scalar() || value.type_id() != type_id {
            proof {
                assert(!scalars_encodable(views, type_id)) by {
                    if scalars_encodable(views, type_id) {
                        assert(is_scalar(views[i as int]));
                    }
                }
            }
            return Err(StatusCode::BadEncodingLimitsExceeded);
        }
        proof {
            if !scalar_encodable(views[i as int]) {
                assert(!scalars_encodable(views, type_id)) by {
                    if scalars_encodable(views, type_id) {
                        assert(is_scalar(views[i as int]));
                    }
                }
            }
        }
        let ghost before = stream@;
        encode_scalar(value, stream, Ghost(start))?;
        proof {
            lemma_concat_assoc(
                o,
                scalars_encoding(views.take(i as int)),
                scalar_encoding(views[i as int]),
            );
            assert forall|k: int| 0 <= k < i + 1 implies is_scalar(
                #[trigger] views.take(i + 1)[k],
            ) && scalar_type_id(views.take(i + 1)[k]) == type_id && scalar_encodable(
                views.take(i + 1)[k],
            ) by {
                if k < i {
                    assert(views.take(i as int)[k] == views[k]);
                }
            }
        }
        i += 1;
    }
    proof {
        assert(views.take(i as int) =~= views);
    }
    Ok(0)
}

/// The wire form of two runs of values is the wire form of the first
/// followed by that of the second.
pub proof fn lemma_scalars_encoding_concat(a: Seq<VariantView>, b: Seq<VariantView>)
    ensures
        scalars_encoding(a + b) == scalars_encoding(a) + scalars_encoding(b),
    decreases a.len(),
{
    if a.len() == 0 {
        assert(a + b =~= b);
        assert(scalars_encoding(a) + scalars_encoding(b) =~= scalars_encoding(b));
    } else {
        lemma_scalars_encoding_concat(a.skip(1), b);
        assert((a + b).skip(1) =~= a.skip(1) + b);
        assert((a + b)[0] == a[0]);
        lemma_concat_assoc(
            scalar_encoding(a[0]),
            scalars_encoding(a.skip(1)),
            scalars_encoding(b),
        );
    }
}

/// Adding one value at the end adds its wire form at the end.
pub proof fn lemma_scalars_encoding_push(a: Seq<VariantView>, v: VariantView)
    ensures
        scalars_encoding(a.push(v)) == scalars_encoding(a) + scalar_encoding(v),
{
    let b = seq![v];
    lemma_scalars_encoding_concat(a, b);
    assert(a.push(v) =~= a + b);
    assert(scalars_encoding(b.skip(1)) =~= Seq::<u8>::empty());
    assert(scalars_encoding(b) =~= scalar_encoding(v));
}

/// Appends the wire form of a variant to the stream.
fn encode_variant(v: &Variant, stream: &mut Vec<u8>, Ghost(start): Ghost<Seq<u8>>) -> (r:
    EncodingResult<usize>)
    requires
        extends(old(stream)@, start),
    ensures
        variant_encodable(v@) ==> r is Ok && final(stream)@ == old(stream)@ + variant_encoding(v@),
        !variant_encodable(v@) ==> r == Err::<usize, StatusCode>(
            StatusCode::BadEncodingLimitsExceeded,
        ),
        extends(final(stream)@, start),
    decreases v, 2nat,
{
    let ghost o = stream@;
    match v {
        Variant::Array(values) => {
            let ghost views = variants_view(values@);
            proof {
                lemma_variants_view(values@);
            }
            if values.len() > MAX_WIRE_LENGTH {
                return Err(StatusCode::BadEncodingLimitsExceeded);
            }
            let type_id: u8 = if values.len() == 0 {
                0
            } else {
                values[0].type_id()
            };
            let mask: u8 = type_id + 128;
            write_part(stream, &mask, Ghost(start))?;
            write_part(stream, &(values.len() as i32), Ghost(start))?;
            encode_scalars(values, type_id, stream, Ghost(start))?;
            proof {
                lemma_concat_assoc(o, seq![mask], i32::encoding(values.len() as i32));
                lemma_concat_assoc(
                    o,
                    seq![mask] + i32::encoding(values.len() as i32),
                    scalars_encoding(views),
                );
            }
            Ok(0)
        },
        Variant::MultiDimensionArray(a) => {
            let ghost views = variants_view(a.values@);
            proof {
                lemma_variants_view(a.values@);
            }
            if a.values.len() > MAX_WIRE_LENGTH || a.dimensions.len() > MAX_WIRE_LENGTH {
                return Err(StatusCode::BadEncodingLimitsExceeded);
            }
            let type_id: u8 = if a.values.len() == 0 {
                0
            } else {
                a.values[0].type_id()
            };
            let mask: u8 = type_id + 192;
            write_part(stream, &mask, Ghost(start))?;
            write_part(stream, &(a.values.len() as i32), Ghost(start))?;
            encode_scalars(&a.values, type_id, stream, Ghost(start))?;
            let ghost head = stream@;
            encode_dimensions(&a.dimensions, stream, Ghost(start))?;
            proof {
                lemma_concat_assoc(o, seq![mask], i32::encoding(a.values.len() as i32));
                lemma_concat_assoc(
                    o,
                    seq![mask] + i32::encoding(a.values.len() as i32),
                    scalars_encoding(views),
                );
                lemma_concat_assoc(
                    o,
                    seq![mask] + i32::encoding(a.values.len() as i32) + scalars_encoding(views),
                    array_encoding::<i32>(Some(a.dimensions@)),
                );
            }
            Ok(0)
        },
        _ => {
            let mask: u8 = v.type_id();
            write_part(stream, &mask, Ghost(start))?;
            encode_scalar(v, stream, Ghost(start))?;
            proof {
                lemma_concat_assoc(o, seq![mask], scalar_encoding(v@));
            }
            Ok(0)
        },
    }
}

/// Appends the lengths of the dimensions of an array, as an array of their
/// own, to the stream.
fn encode_dimensions(dimensions: &Vec<i32>, stream: &mut Vec<u8>, Ghost(start): Ghost<Seq<u8>>) -> (r:
    EncodingResult<usize>)
    requires
        extends(old(stream)@, start),
        dimensions@.len() <= MAX_WIRE_LENGTH,
    ensures
        r is Ok,
        final(stream)@ == old(stream)@ + array_encoding::<i32>(Some(dimensions@)),
        extends(final(stream)@, start),
{
    let ghost o = stream@;
    proof {
        lemma_i32_round_trip(dimensions@.len() as i32, Seq::empty());
    }
    write_part(stream, &(dimensions.len() as i32), Ghost(start))?;
    let mut i: usize = 0;
    assert(dimensions@.take(0) =~= Seq::<i32>::empty());
    while i < dimensions.len()
        invariant
            i <= dimensions.len(),
            dimensions@.len() <= MAX_WIRE_LENGTH,
            o == old(stream)@,
            extends(stream@, start),
            stream@ == o + i32::encoding(dimensions@.len() as i32) + crate::encoding::items_encoding::<
                i32,
            >(dimensions@.take(i as int)),
        decreases dimensions.len() - i,
    {
        proof {
            crate::encoding::lemma_items_encoding_push::<i32>(
                dimensions@.take(i as int),
                dimensions@[i as int],
            );
            assert(dimensions@.take(i as int).push(dimensions@[i as int]) =~= dimensions@.take(
                i + 1,
            ));
            lemma_concat_assoc(
                o + i32::encoding(dimensions@.len() as i32),
                crate::encoding::items_encoding::<i32>(dimensions@.take(i as int)),
                i32::encoding(dimensions@[i as int]),
            );
        }
        write_part(stream, &dimensions[i], Ghost(start))?;
        i += 1;
    }
    proof {
        assert(dimensions@.take(i as int) =~= dimensions@);
        lemma_concat_assoc(
            o,
            i32::encoding(dimensions@.len() as i32),
            crate::encoding::items_encoding::<i32>(dimensions@),
        );
    }
    Ok(0)
}

/// Appends the wire form of a data value to the stream.
fn encode_data_value(v: &DataValue, stream: &mut Vec<u8>, Ghost(start): Ghost<Seq<u8>>) -> (r:
    EncodingResult<usize>)
    requires
        extends(old(stream)@, start),
    ensures
        data_value_encodable(v@) ==> r is Ok && final(stream)@ == old(stream)@
            + data_value_encoding(v@),
        !data_value_encodable(v@) ==> r == Err::<usize, StatusCode>(
            StatusCode::BadEncodingLimitsExceeded,
        ),
        extends(final(stream)@, start),
    decreases v, 3nat,
{
    let ghost o = stream@;
    let ghost view = v@;
    let mask: u8 = 0x3f;
    write_part(stream, &mask, Ghost(start))?;
    encode_variant(&v.value, stream, Ghost(start))?;
    write_part(stream, &v.status, Ghost(start))?;
    write_part(stream, &v.source_timestamp, Ghost(start))?;
    write_part(stream, &v.source_pico_seconds, Ghost(start))?;
    write_part(stream, &v.server_timestamp, Ghost(start))?;
    write_part(stream, &v.server_pico_seconds, Ghost(start))?;
    proof {
        let p0 = seq![0x3fu8];
        let p1 = variant_encoding(*view.value);
        let p2 = StatusCode::encoding(view.status);
        let p3 = DateTime::encoding(view.source_timestamp);
        let p4 = i16::encoding(view.source_pico_seconds);
        let p5 = DateTime::encoding(view.server_timestamp);
        let p6 = i16::encoding(view.server_pico_seconds);
        lemma_concat_assoc(o, p0, p1);
        lemma_concat_assoc(o, p0 + p1, p2);
        lemma_concat_assoc(o, p0 + p1 + p2, p3);
        lemma_concat_assoc(o, p0 + p1 + p2 + p3, p4);
        lemma_concat_assoc(o, p0 + p1 + p2 + p3 + p4, p5);
        lemma_concat_assoc(o, p0 + p1 + p2 + p3 + p4 + p5, p6);
    }
    Ok(0)
}

/// Size of the wire form of one value of a built-in type, without the byte
/// that names the type.
fn byte_len_scalar(v: &Variant) -> (r: usize)
    ensures
        r == saturated(scalar_encoding(v@).len()),
    decreases v, 0nat,
{
    match v {
        Variant::Boolean(x) => x.byte_len(),
        Variant::SByte(x) => x.byte_len(),
        Variant::Byte(x) => x.byte_len(),
        Variant::Int16(x) => x.byte_len(),
        Variant::UInt16(x) => x.byte_len(),
        Variant::Int32(x) => x.byte_len(),
        Variant::UInt32(x) => x.byte_len(),
        Variant::Int64(x) => x.byte_len(),
        Variant::UInt64(x) => x.byte_len(),
        Variant::Float(x) => x.byte_len(),
        Variant::Double(x) => x.byte_len(),
        Variant::String(x) => x.byte_len(),
        Variant::DateTime(x) => x.byte_len(),
        Variant::Guid(x) => x.byte_len(),
        Variant::ByteString(x) => x.byte_len(),
        Variant::XmlElement(x) => x.byte_len(),
        Variant::NodeId(x) => x.byte_len(),
        Variant::StatusCode(x) => x.byte_len(),
        Variant::QualifiedName(x) => x.byte_len(),
        Variant::LocalizedText(x) => x.byte_len(),
        Variant::ExtensionObject(x) => x.byte_len(),
        Variant::DataValue(x) => byte_len_data_value(x),
        _ => 0,
    }
}

/// Size of the wire forms of the values of an array.
fn byte_len_scalars(values: &Vec<Variant>) -> (r: usize)
    ensures
        r == saturated(scalars_encoding(variants_view(values@)).len()),
    decreases values, 1nat,
{
    let ghost views = variants_view(values@);
    proof {
        lemma_variants_view(values@);
        assert(views.take(0) =~= Seq::<VariantView>::empty());
    }
    let mut size: usize = 0;
    let mut i: usize = 0;
    while i < values.len()
        invariant
            i <= values.len(),
            views == variants_view(values@),
            views.len() == values.len(),
            forall|k: int| 0 <= k < values.len() ==> views[k] == variant_view(values[k]),
            size == saturated(scalars_encoding(views.take(i as int)).len()),
        decreases values.len() - i,
    {
        proof {
            lemma_scalars_encoding_push(views.take(i as int), views[i as int]);
            assert(views.take(i as int).push(views[i as int]) =~= views.take(i + 1));
        }
        size = add_len(size, byte_len_scalar(&values[i]));
        i += 1;
    }
    proof {
        assert(views.take(i as int) =~= views);
    }
    size
}

/// Size of the wire form of a variant.
fn byte_len_variant(v: &Variant) -> (r: usize)
    ensures
        r == saturated(variant_encoding(v@).len()),
    decreases v, 2nat,
{
    match v {
        Variant::Array(values) => {
            proof {
                lemma_i32_round_trip(variants_view(values@).len() as i32, Seq::empty());
            }
            add_len(5, byte_len_scalars(values))
        },
        Variant::MultiDimensionArray(a) => {
            let ghost views = variants_view(a.values@);
            let ghost e1 = seq![(array_type_id(views) + 192) as u8] + i32::encoding(
                views.len() as i32,
            );
            let ghost e2 = e1 + scalars_encoding(views);
            proof {
                lemma_i32_round_trip(views.len() as i32, Seq::empty());
            }
            let size = add_len(5, byte_len_scalars(&a.values));
            assert(size == saturated(e2.len()));
            let size = add_len(size, 4);
            let size = add_len(size, byte_len_dimensions(&a.dimensions));
            proof {
                lemma_i32_round_trip(a.dimensions@.len() as i32, Seq::empty());
            }
            size
        },
        _ => add_len(1, byte_len_scalar(v)),
    }
}

/// Size of the wire forms of the lengths of the dimensions of an array.
fn byte_len_dimensions(dimensions: &Vec<i32>) -> (r: usize)
    ensures
        r == saturated(crate::encoding::items_encoding::<i32>(dimensions@).len()),
{
    let mut size: usize = 0;
    let mut i: usize = 0;
    assert(dimensions@.take(0) =~= Seq::<i32>::empty());
    while i < dimensions.len()
        invariant
            i <= dimensions.len(),
            size == saturated(
                crate::encoding::items_encoding::<i32>(dimensions@.take(i as int)).len(),
            ),
        decreases dimensions.len() - i,
    {
        proof {
            crate::encoding::lemma_items_encoding_push::<i32>(
                dimensions@.take(i as int),
                dimensions@[i as int],
            );
            assert(dimensions@.take(i as int).push(dimensions@[i as int]) =~= dimensions@.take(
                i + 1,
            ));
        }
        size = add_len(size, dimensions[i].byte_len());
        i += 1;
    }
    proof {
        assert(dimensions@.take(i as int) =~= dimensions@);
    }
    size
}

/// Size of the wire form of a data value.
fn byte_len_data_value(v: &DataValue) -> (r: usize)
    ensures
        r == saturated(data_value_encoding(v@).len()),
    decreases v, 3nat,
{
    let ghost view = v@;
    let ghost e1 = seq![0x3fu8] + variant_encoding(*view.value);
    let ghost e2 = e1 + StatusCode::encoding(view.status);
    let ghost e3 = e2 + DateTime::encoding(view.source_timestamp);
    let ghost e4 = e3 + i16::encoding(view.source_pico_seconds);
    let ghost e5 = e4 + DateTime::encoding(view.server_timestamp);
    let mut size: usize = add_len(1, byte_len_variant(&v.value));
    assert(size == saturated(e1.len()));
    size = add_len(size, v.status.byte_len());
    assert(size == saturated(e2.len()));
    size = add_len(size, v.source_timestamp.byte_len());
    assert(size == saturated(e3.len()));
    size = add_len(size, v.source_pico_seconds.byte_len());
    assert(size == saturated(e4.len()));
    size = add_len(size, v.server_timestamp.byte_len());
    assert(size == saturated(e5.len()));
    size = add_len(size, v.server_pico_seconds.byte_len());
    size
}

/// Whether a decoder with the given limits takes one value of a built-in
/// type.
pub open spec fn scalar_within(v: VariantView, limits: DecodingLimits) -> bool
    decreases v, 0nat,
{
    match v {
        VariantView::String(x) => UAString::within(x, limits),
        VariantView::ByteString(x) => ByteString::within(x, limits),
        VariantView::XmlElement(x) => UAString::within(x, limits),
        VariantView::NodeId(x) => NodeId::within(x, limits),
        VariantView::QualifiedName(x) => QualifiedName::within(x, limits),
        VariantView::LocalizedText(x) => LocalizedText::within(x, limits),
        VariantView::ExtensionObject(x) => ExtensionObject::within(x, limits),
        VariantView::DataValue(x) => data_value_within(*x, limits),
        _ => true,
    }
}

pub open spec fn scalars_within(values: Seq<VariantView>, limits: DecodingLimits) -> bool
    decreases values, 0nat,
{
    forall|i: int| 0 <= i < values.len() ==> scalar_within(#[trigger] values[i], limits)
}

/// Whether a decoder with the given limits takes a variant.
pub open spec fn variant_within(v: VariantView, limits: DecodingLimits) -> bool
    decreases v, 1nat,
{
    match v {
        VariantView::Array(values) => values.len() <= limits.max_array_length && scalars_within(
            values,
            limits,
        ),
        VariantView::MultiDimensionArray(values, dimensions) => values.len()
            <= limits.max_array_length && dimensions.len() <= limits.max_array_length
            && scalars_within(values, limits),
        _ => scalar_within(v, limits),
    }
}

pub open spec fn data_value_within(v: DataValueView, limits: DecodingLimits) -> bool
    decreases v, 0nat,
{
    variant_within(*v.value, limits)
}

/// One value of the built-in type that `type_id` names, off the front of
/// `s`. A number that names no type, or a type that this stack does not
/// read, is malformed.
pub open spec fn scalar_decoding(type_id: u8, s: Seq<u8>, limits: DecodingLimits) -> Result<
    (VariantView, Seq<u8>),
    StatusCode,
>
    decreases s.len(), 1nat, 0nat,
{
    if type_id == 1 {
        match bool::decoding(s, limits) {
            Err(e) => Err(e),
            Ok((x, s)) => Ok((VariantView::Boolean(x), s)),
        }
    } else if type_id == 2 {
        match i8::decoding(s, limits) {
            Err(e) => Err(e),
            Ok((x, s)) => Ok((VariantView::SByte(x), s)),
        }
    } else if type_id == 3 {
        match u8::decoding(s, limits) {
            Err(e) => Err(e),
            Ok((x, s)) => Ok((VariantView::Byte(x), s)),
        }
    } else if type_id == 4 {
        match i16::decoding(s, limits) {
            Err(e) => Err(e),
            Ok((x, s)) => Ok((VariantView::Int16(x), s)),
        }
    } else if type_id == 5 {
        match u16::decoding(s, limits) {
            Err(e) => Err(e),
            Ok((x, s)) => Ok((VariantView::UInt16(x), s)),
        }
    } else if type_id == 6 {
        match i32::decoding(s, limits) {
            Err(e) => Err(e),
            Ok((x, s)) => Ok((VariantView::Int32(x), s)),
        }
    } else if type_id == 7 {
        match u32::decoding(s, limits) {
            Err(e) => Err(e),
            Ok((x, s)) => Ok((VariantView::UInt32(x), s)),
        }
    } else if type_id == 8 {
        match i64::decoding(s, limits) {
            Err(e) => Err(e),
            Ok((x, s)) => Ok((VariantView::Int64(x), s)),
        }
    } else if type_id == 9 {
        match u64::decoding(s, limits) {
            Err(e) => Err(e),
            Ok((x, s)) => Ok((VariantView::UInt64(x), s)),
        }
    } else if type_id == 10 {
        match u32::decoding(s, limits) {
            Err(e) => Err(e),
            Ok((x, s)) => Ok((VariantView::Float(x), s)),
        }
    } else if type_id == 11 {
        match u64::decoding(s, limits) {
            Err(e) => Err(e),
            Ok((x, s)) => Ok((VariantView::Double(x), s)),
        }
    } else if type_id == 12 {
        match UAString::decoding(s, limits) {
            Err(e) => Err(e),
            Ok((x, s)) => Ok((VariantView::String(x), s)),
        }
    } else if type_id == 13 {
        match DateTime::decoding(s, limits) {
            Err(e) => Err(e),
            Ok((x, s)) => Ok((VariantView::DateTime(x), s)),
        }
    } else if type_id == 14 {
        match Guid::decoding(s, limits) {
            Err(e) => Err(e),
            Ok((x, s)) => Ok((VariantView::Guid(x), s)),
        }
    } else if type_id == 15 {
        match ByteString::decoding(s, limits) {
            Err(e) => Err(e),
            Ok((x, s)) => Ok((VariantView::ByteString(x), s)),
        }
    } else if type_id == 16 {
        match UAString::decoding(s, limits) {
            Err(e) => Err(e),
            Ok((x, s)) => Ok((VariantView::XmlElement(x), s)),
        }
    } else if type_id == 17 {
        match NodeId::decoding(s, limits) {
            Err(e) => Err(e),
            Ok((x, s)) => Ok((VariantView::NodeId(x), s)),
        }
    } else if type_id == 19 {
        match StatusCode::decoding(s, limits) {
            Err(e) => Err(e),
            Ok((x, s)) => Ok((VariantView::StatusCode(x), s)),
        }
    } else if type_id == 20 {
        match QualifiedName::decoding(s, limits) {
            Err(e) => Err(e),
            Ok((x, s)) => Ok((VariantView::QualifiedName(x), s)),
        }
    } else if type_id == 21 {
        match LocalizedText::decoding(s, limits) {
            Err(e) => Err(e),
            Ok((x, s)) => Ok((VariantView::LocalizedText(x), s)),
        }
    } else if type_id == 22 {
        match ExtensionObject::decoding(s, limits) {
            Err(e) => Err(e),
            Ok((x, s)) => Ok((VariantView::ExtensionObject(x), s)),
        }
    } else if type_id == 23 {
        match data_value_decoding(s, limits) {
            Err(e) => Err(e),
            Ok((x, s)) => Ok((VariantView::DataValue(Box::new(x)), s)),
        }
    } else {
        Err(StatusCode::BadDecodingError)
    }
}

/// Reads `n` values of the type that `type_id` names off the front of `s`
/// and puts them behind `acc`. Reading a value never leaves more bytes than
/// there were; were it otherwise, the values would be malformed.
pub open spec fn scalars_decoding(
    type_id: u8,
    s: Seq<u8>,
    n: nat,
    limits: DecodingLimits,
    acc: Seq<VariantView>,
) -> Result<(Seq<VariantView>, Seq<u8>), StatusCode>
    decreases s.len(), 2nat, n,
{
    if n == 0 {
        Ok((acc, s))
    } else {
        match scalar_decoding(type_id, s, limits) {
            Err(e) => Err(e),
            Ok((v, rest)) => if rest.len() <= s.len() {
                scalars_decoding(type_id, rest, (n - 1) as nat, limits, acc.push(v))
            } else {
                Err(StatusCode::BadDecodingError)
            },
        }
    }
}

/// What follows the values of an array: the lengths of its dimensions where
/// the mask announces them, which makes the array one of several dimensions.
pub open spec fn array_tail_decoding(
    has_dimensions: bool,
    values: Seq<VariantView>,
    s: Seq<u8>,
    limits: DecodingLimits,
) -> Result<(VariantView, Seq<u8>), StatusCode> {
    if has_dimensions {
        match array_decoding::<i32>(s, limits) {
            Err(e) => Err(e),
            Ok((None, _)) => Err(StatusCode::BadDecodingError),
            Ok((Some(dimensions), rest)) => Ok(
                (VariantView::MultiDimensionArray(values, dimensions), rest),
            ),
        }
    } else {
        Ok((VariantView::Array(values), s))
    }
}

/// A variant off the front of `s`. Without bit 128 in the mask one value
/// follows, or none for the type 0, and bit 64 is malformed. With it an array
/// follows: a negative number of values is malformed and one above the limit
/// on arrays is refused.
pub open spec fn variant_decoding(s: Seq<u8>, limits: DecodingLimits) -> Result<
    (VariantView, Seq<u8>),
    StatusCode,
>
    decreases s.len(), 3nat, 0nat,
{
    match u8::decoding(s, limits) {
        Err(e) => Err(e),
        Ok((mask, s1)) => if mask < 128 {
            if mask >= 64 {
                Err(StatusCode::BadDecodingError)
            } else if mask == 0 {
                Ok((VariantView::Empty, s1))
            } else {
                scalar_decoding(mask, s1, limits)
            }
        } else {
            match i32::decoding(s1, limits) {
                Err(e) => Err(e),
                Ok((n, s2)) => if n < 0 {
                    Err(StatusCode::BadDecodingError)
                } else if n > limits.max_array_length {
                    Err(StatusCode::BadEncodingLimitsExceeded)
                } else {
                    match scalars_decoding(mask % 64, s2, n as nat, limits, Seq::empty()) {
                        Err(e) => Err(e),
                        Ok((values, s3)) => array_tail_decoding(
                            (mask / 64) % 2 == 1,
                            values,
                            s3,
                            limits,
                        ),
                    }
                },
            }
        },
    }
}

/// The parts of a data value behind its value.
pub struct DataValueTail {
    pub status: Option<StatusCode>,
    pub source_timestamp: Option<i64>,
    pub source_pico_seconds: Option<i16>,
    pub server_timestamp: Option<i64>,
    pub server_pico_seconds: Option<i16>,
}

/// The parts that the mask announces behind the value of a data value: the
/// status for bit 2, the time stamps of the source and of the server for the
/// bits 4 and 8, and their picoseconds for the bits 16 and 32.
pub open spec fn data_value_tail_decoding(mask: u8, s: Seq<u8>, limits: DecodingLimits) -> Result<
    (DataValueTail, Seq<u8>),
    StatusCode,
> {
    match optional_decoding::<StatusCode>((mask / 2) % 2 == 1, s, limits) {
        Err(e) => Err(e),
        Ok((status, s)) => match optional_decoding::<DateTime>((mask / 4) % 2 == 1, s, limits) {
            Err(e) => Err(e),
            Ok((source_timestamp, s)) => match optional_decoding::<i16>(
                (mask / 16) % 2 == 1,
                s,
                limits,
            ) {
                Err(e) => Err(e),
                Ok((source_pico_seconds, s)) => match optional_decoding::<DateTime>(
                    (mask / 8) % 2 == 1,
                    s,
                    limits,
                ) {
                    Err(e) => Err(e),
                    Ok((server_timestamp, s)) => match optional_decoding::<i16>(
                        (mask / 32) % 2 == 1,
                        s,
                        limits,
                    ) {
                        Err(e) => Err(e),
                        Ok((server_pico_seconds, s)) => Ok(
                            (
                                DataValueTail {
                                    status,
                                    source_timestamp,
                                    source_pico_seconds,
                                    server_timestamp,
                                    server_pico_seconds,
                                },
                                s,
                            ),
                        ),
                    },
                },
            },
        },
    }
}

/// The data value made of a value and the parts behind it. A part that is
/// not there is the good status, the start of 1601 or no picoseconds.
pub open spec fn data_value_of(value: VariantView, tail: DataValueTail) -> DataValueView {
    DataValueView {
        value: Box::new(value),
        status: match tail.status {
            Some(x) => x,
            None => StatusCode::Good,
        },
        source_timestamp: match tail.source_timestamp {
            Some(x) => x,
            None => 0,
        },
        source_pico_seconds: match tail.source_pico_seconds {
            Some(x) => x,
            None => 0,
        },
        server_timestamp: match tail.server_timestamp {
            Some(x) => x,
            None => 0,
        },
        server_pico_seconds: match tail.server_pico_seconds {
            Some(x) => x,
            None => 0,
        },
    }
}

/// A data value off the front of `s`: the mask, the value where bit 1
/// announces it, and the parts behind it.
pub open spec fn data_value_decoding(s: Seq<u8>, limits: DecodingLimits) -> Result<
    (DataValueView, Seq<u8>),
    StatusCode,
>
    decreases s.len(), 0nat, 0nat,
{
    match u8::decoding(s, limits) {
        Err(e) => Err(e),
        Ok((mask, s1)) => match (if mask % 2 == 1 {
            variant_decoding(s1, limits)
        } else {
            Ok((VariantView::Empty, s1))
        }) {
            Err(e) => Err(e),
            Ok((value, s2)) => match data_value_tail_decoding(mask, s2, limits) {
                Err(e) => Err(e),
                Ok((tail, s3)) => Ok((data_value_of(value, tail), s3)),
            },
        },
    }
}

/// Reads one value of the built-in type that `type_id` names from the
/// stream.
fn decode_scalar(type_id: u8, stream: &mut ReadStream, limits: &DecodingLimits) -> (r:
    EncodingResult<Variant>)
    ensures
        match scalar_decoding(type_id, old(stream)@, *limits) {
            Ok((v, rest)) => r is Ok && r.unwrap()@ == v && final(stream)@ == rest,
            Err(e) => r matches Err(x) && x == e,
        },
    decreases old(stream)@.len(), 1nat,
{
    match type_id {
        1 => Ok(Variant::Boolean(bool::decode(stream, limits)?)),
        2 => Ok(Variant::SByte(i8::decode(stream, limits)?)),
        3 => Ok(Variant::Byte(u8::decode(stream, limits)?)),
        4 => Ok(Variant::Int16(i16::decode(stream, limits)?)),
        5 => Ok(Variant::UInt16(u16::decode(stream, limits)?)),
        6 => Ok(Variant::Int32(i32::decode(stream, limits)?)),
        7 => Ok(Variant::UInt32(u32::decode(stream, limits)?)),
        8 => Ok(Variant::Int64(i64::decode(stream, limits)?)),
        9 => Ok(Variant::UInt64(u64::decode(stream, limits)?)),
        10 => Ok(Variant::Float(u32::decode(stream, limits)?)),
        11 => Ok(Variant::Double(u64::decode(stream, limits)?)),
        12 => Ok(Variant::String(UAString::decode(stream, limits)?)),
        13 => Ok(Variant::DateTime(DateTime::decode(stream, limits)?)),
        14 => Ok(Variant::Guid(Guid::decode(stream, limits)?)),
        15 => Ok(Variant::ByteString(ByteString::decode(stream, limits)?)),
        16 => Ok(Variant::XmlElement(UAString::decode(stream, limits)?)),
        17 => Ok(Variant::NodeId(Box::new(NodeId::decode(stream, limits)?))),
        19 => Ok(Variant::StatusCode(StatusCode::decode(stream, limits)?)),
        20 => Ok(Variant::QualifiedName(Box::new(QualifiedName::decode(stream, limits)?))),
        21 => Ok(Variant::LocalizedText(Box::new(LocalizedText::decode(stream, limits)?))),
        22 => Ok(Variant::ExtensionObject(Box::new(ExtensionObject::decode(stream, limits)?))),
        23 => Ok(Variant::DataValue(Box::new(decode_data_value(stream, limits)?))),
        _ => Err(StatusCode::BadDecodingError),
    }
}

/// Reads `n` values of the type that `type_id` names from the stream.
fn decode_scalars(type_id: u8, n: usize, stream: &mut ReadStream, limits: &DecodingLimits) -> (r:
    EncodingResult<Vec<Variant>>)
    ensures
        match scalars_decoding(type_id, old(stream)@, n as nat, *limits, Seq::empty()) {
            Ok((values, rest)) => r is Ok && variants_view(r.unwrap()@) == values
                && final(stream)@ == rest,
            Err(e) => r matches Err(x) && x == e,
        },
    decreases old(stream)@.len(), 2nat,
{
    let ghost whole = scalars_decoding(type_id, old(stream)@, n as nat, *limits, Seq::empty());
    let mut values: Vec<Variant> = Vec::new();
    let mut i: usize = 0;
    while i < n
        invariant
            i <= n,
            stream@.len() <= old(stream)@.len(),
            whole == scalars_decoding(type_id, old(stream)@, n as nat, *limits, Seq::empty()),
            whole == scalars_decoding(
                type_id,
                stream@,
                (n - i) as nat,
                *limits,
                variants_view(values@),
            ),
        decreases n - i,
    {
        let ghost before = variants_view(values@);
        let ghost earlier = values@;
        let ghost here = stream@;
        let left = stream.remaining();
        match decode_scalar(type_id, stream, limits) {
            Ok(value) => {
                if stream.remaining() > left {
                    return Err(StatusCode::BadDecodingError);
                }
                values.push(value);
                proof {
                    assert(values@.drop_last() =~= earlier);
                }
            },
            Err(e) => {
                return Err(e);
            },
        }
        i += 1;
    }
    Ok(values)
}

/// Reads a variant from the stream.
fn decode_variant(stream: &mut ReadStream, limits: &DecodingLimits) -> (r: EncodingResult<Variant>)
    ensures
        match variant_decoding(old(stream)@, *limits) {
            Ok((v, rest)) => r is Ok && r.unwrap()@ == v && final(stream)@ == rest,
            Err(e) => r matches Err(x) && x == e,
        },
    decreases old(stream)@.len(), 3nat,
{
    let mask = read_u8(stream)?;
    if mask < 128 {
        if mask >= 64 {
            Err(StatusCode::BadDecodingError)
        } else if mask == 0 {
            Ok(Variant::Empty)
        } else {
            decode_scalar(mask, stream, limits)
        }
    } else {
        let n = read_i32(stream)?;
        if n < 0 {
            return Err(StatusCode::BadDecodingError);
        }
        if n as usize > limits.max_array_length {
            return Err(StatusCode::BadEncodingLimitsExceeded);
        }
        let values = decode_scalars(mask % 64, n as usize, stream, limits)?;
        if (mask / 64) % 2 == 1 {
            let dimensions: Option<Vec<i32>> = read_array(stream, limits)?;
            match dimensions {
                Some(dimensions) => {
                    proof {
                        assert(seq_view(dimensions@) =~= dimensions@);
                    }
                    Ok(
                        Variant::MultiDimensionArray(
                            Box::new(MultiDimensionArray { values, dimensions }),
                        ),
                    )
                },
                None => Err(StatusCode::BadDecodingError),
            }
        } else {
            Ok(Variant::Array(values))
        }
    }
}

/// Reads a data value from the stream.
fn decode_data_value(stream: &mut ReadStream, limits: &DecodingLimits) -> (r: EncodingResult<
    DataValue,
>)
    ensures
        match data_value_decoding(old(stream)@, *limits) {
            Ok((v, rest)) => r is Ok && r.unwrap()@ == v && final(stream)@ == rest,
            Err(e) => r matches Err(x) && x == e,
        },
    decreases old(stream)@.len(), 0nat,
{
    let mask = read_u8(stream)?;
    let value = if mask % 2 == 1 {
        decode_variant(stream, limits)?
    } else {
        Variant::Empty
    };
    let status = read_optional::<StatusCode>((mask / 2) % 2 == 1, stream, limits)?;
    let source_timestamp = read_optional::<DateTime>((mask / 4) % 2 == 1, stream, limits)?;
    let source_pico_seconds = read_optional::<i16>((mask / 16) % 2 == 1, stream, limits)?;
    let server_timestamp = read_optional::<DateTime>((mask / 8) % 2 == 1, stream, limits)?;
    let server_pico_seconds = read_optional::<i16>((mask / 32) % 2 == 1, stream, limits)?;
    Ok(
        DataValue {
            value: Box::new(value),
            status: match status {
                Some(x) => x,
                None => StatusCode::Good,
            },
            source_timestamp: match source_timestamp {
                Some(x) => x,
                None => DateTime::epoch(),
            },
            source_pico_seconds: match source_pico_seconds {
                Some(x) => x,
                None => 0,
            },
            server_timestamp: match server_timestamp {
                Some(x) => x,
                None => DateTime::epoch(),
            },
            server_pico_seconds: match server_pico_seconds {
                Some(x) => x,
                None => 0,
            },
        },
    )
}

/// One value of a built-in type is read back from its wire form under the
/// number of its type.
pub proof fn lemma_scalar_round_trip(v: VariantView, rest: Seq<u8>, limits: DecodingLimits)
    requires
        is_scalar(v),
        scalar_encodable(v),
        scalar_within(v, limits),
    ensures
        scalar_decoding(scalar_type_id(v), scalar_encoding(v) + rest, limits) == Ok::<
            (VariantView, Seq<u8>),
            StatusCode,
        >((v, rest)),
    decreases v, 0nat,
{
    match v {
        VariantView::Boolean(x) => {
            bool::lemma_round_trip(x, rest, limits);
        },
        VariantView::SByte(x) => {
            i8::lemma_round_trip(x, rest, limits);
        },
        VariantView::Byte(x) => {
            u8::lemma_round_trip(x, rest, limits);
        },
        VariantView::Int16(x) => {
            i16::lemma_round_trip(x, rest, limits);
        },
        VariantView::UInt16(x) => {
            u16::lemma_round_trip(x, rest, limits);
        },
        VariantView::Int32(x) => {
            i32::lemma_round_trip(x, rest, limits);
        },
        VariantView::UInt32(x) => {
            u32::lemma_round_trip(x, rest, limits);
        },
        VariantView::Int64(x) => {
            i64::lemma_round_trip(x, rest, limits);
        },
        VariantView::UInt64(x) => {
            u64::lemma_round_trip(x, rest, limits);
        },
        VariantView::Float(x) => {
            u32::lemma_round_trip(x, rest, limits);
        },
        VariantView::Double(x) => {
            u64::lemma_round_trip(x, rest, limits);
        },
        VariantView::String(x) => {
            UAString::lemma_round_trip(x, rest, limits);
        },
        VariantView::DateTime(x) => {
            DateTime::lemma_round_trip(x, rest, limits);
        },
        VariantView::Guid(x) => {
            Guid::lemma_round_trip(x, rest, limits);
        },
        VariantView::ByteString(x) => {
            ByteString::lemma_round_trip(x, rest, limits);
        },
        VariantView::XmlElement(x) => {
            UAString::lemma_round_trip(x, rest, limits);
        },
        VariantView::NodeId(x) => {
            NodeId::lemma_round_trip(x, rest, limits);
        },
        VariantView::StatusCode(x) => {
            StatusCode::lemma_round_trip(x, rest, limits);
        },
        VariantView::QualifiedName(x) => {
            QualifiedName::lemma_round_trip(x, rest, limits);
        },
        VariantView::LocalizedText(x) => {
            LocalizedText::lemma_round_trip(x, rest, limits);
        },
        VariantView::ExtensionObject(x) => {
            ExtensionObject::lemma_round_trip(x, rest, limits);
        },
        VariantView::DataValue(x) => {
            lemma_data_value_round_trip(*x, rest, limits);
        },
        _ => {},
    }
}

/// The values of an array are read back from their wire forms, in order.
pub proof fn lemma_scalars_round_trip(
    values: Seq<VariantView>,
    type_id: u8,
    rest: Seq<u8>,
    limits: DecodingLimits,
    acc: Seq<VariantView>,
)
    requires
        scalars_encodable(values, type_id),
        scalars_within(values, limits),
    ensures
        scalars_decoding(type_id, scalars_encoding(values) + rest, values.len(), limits, acc)
            == Ok::<(Seq<VariantView>, Seq<u8>), StatusCode>((acc + values, rest)),
    decreases values, 1nat,
{
    if values.len() == 0 {
        assert(scalars_encoding(values) + rest =~= rest);
        assert(acc + values =~= acc);
    } else {
        let tail = values.skip(1);
        let tail_bytes = scalars_encoding(tail) + rest;
        lemma_concat_assoc(scalar_encoding(values[0]), scalars_encoding(tail), rest);
        assert(is_scalar(values[0]));
        lemma_scalar_round_trip(values[0], tail_bytes, limits);
        assert forall|i: int| 0 <= i < tail.len() implies is_scalar(#[trigger] tail[i])
            && scalar_type_id(tail[i]) == type_id && scalar_encodable(tail[i]) by {
            assert(tail[i] == values[i + 1]);
        }
        assert forall|i: int| 0 <= i < tail.len() implies scalar_within(
            #[trigger] tail[i],
            limits,
        ) by {
            assert(tail[i] == values[i + 1]);
        }
        lemma_scalars_round_trip(tail, type_id, rest, limits, acc.push(values[0]));
        assert(acc.push(values[0]) + tail =~= acc + values);
    }
}

/// An array is read back from its wire form.
proof fn lemma_array_round_trip_of(values: Seq<VariantView>, rest: Seq<u8>, limits: DecodingLimits)
    requires
        variant_encodable(VariantView::Array(values)),
        variant_within(VariantView::Array(values), limits),
    ensures
        variant_decoding(variant_encoding(VariantView::Array(values)) + rest, limits) == Ok::<
            (VariantView, Seq<u8>),
            StatusCode,
        >((VariantView::Array(values), rest)),
    decreases values, 2nat,
{
    let s = variant_encoding(VariantView::Array(values)) + rest;
    let mask = (array_type_id(values) + 128) as u8;
    let count = i32::encoding(values.len() as i32);
    let body = scalars_encoding(values) + rest;
    lemma_concat_assoc(seq![mask] + count, scalars_encoding(values), rest);
    lemma_concat_assoc(seq![mask], count, body);
    assert(s.skip(1) =~= count + body);
    assert(s[0] == mask);
    lemma_i32_round_trip(values.len() as i32, body);
    lemma_scalars_round_trip(values, array_type_id(values), rest, limits, Seq::empty());
    assert(Seq::<VariantView>::empty() + values =~= values);
    assert(scalars_decoding(mask % 64, body, values.len(), limits, Seq::empty()) == Ok::<
        (Seq<VariantView>, Seq<u8>),
        StatusCode,
    >((values, rest)));
}

/// The number that names a type is at most 23.
proof fn lemma_type_id_bound(values: Seq<VariantView>)
    ensures
        array_type_id(values) <= 23,
{
}

/// The lengths of the dimensions behind the values of an array are read back
/// from their wire form.
proof fn lemma_array_tail_round_trip(
    values: Seq<VariantView>,
    dimensions: Seq<i32>,
    rest: Seq<u8>,
    limits: DecodingLimits,
)
    requires
        dimensions.len() <= MAX_WIRE_LENGTH,
        dimensions.len() <= limits.max_array_length,
    ensures
        array_tail_decoding(
            true,
            values,
            array_encoding::<i32>(Some(dimensions)) + rest,
            limits,
        ) == Ok::<(VariantView, Seq<u8>), StatusCode>(
            (VariantView::MultiDimensionArray(values, dimensions), rest),
        ),
{
    lemma_array_round_trip::<i32>(Some(dimensions), rest, limits);
}

/// An array of several dimensions is read back from its wire form.
proof fn lemma_multi_dimension_round_trip(
    values: Seq<VariantView>,
    dimensions: Seq<i32>,
    rest: Seq<u8>,
    limits: DecodingLimits,
)
    requires
        variant_encodable(VariantView::MultiDimensionArray(values, dimensions)),
        variant_within(VariantView::MultiDimensionArray(values, dimensions), limits),
    ensures
        variant_decoding(
            variant_encoding(VariantView::MultiDimensionArray(values, dimensions)) + rest,
            limits,
        ) == Ok::<(VariantView, Seq<u8>), StatusCode>(
            (VariantView::MultiDimensionArray(values, dimensions), rest),
        ),
    decreases values, 2nat,
{
    let s = variant_encoding(VariantView::MultiDimensionArray(values, dimensions)) + rest;
    let type_id = array_type_id(values);
    lemma_type_id_bound(values);
    let mask = (type_id + 192) as u8;
    assert(mask >= 128 && mask % 64 == type_id && (mask / 64) % 2 == 1);
    let count = i32::encoding(values.len() as i32);
    let tail = array_encoding::<i32>(Some(dimensions)) + rest;
    let body = scalars_encoding(values) + tail;
    lemma_concat_assoc(
        seq![mask] + count + scalars_encoding(values),
        array_encoding::<i32>(Some(dimensions)),
        rest,
    );
    lemma_concat_assoc(seq![mask] + count, scalars_encoding(values), tail);
    lemma_concat_assoc(seq![mask], count, body);
    assert(s == seq![mask] + (count + body));
    assert(u8::decoding(s, limits) == Ok::<(u8, Seq<u8>), StatusCode>((mask, count + body))) by {
        assert(s.skip(1) =~= count + body);
        assert(s[0] == mask);
    }
    assert(i32::decoding(count + body, limits) == Ok::<(i32, Seq<u8>), StatusCode>(
        (values.len() as i32, body),
    )) by {
        lemma_i32_round_trip(values.len() as i32, body);
    }
    assert(scalars_decoding(type_id, body, values.len(), limits, Seq::empty()) == Ok::<
        (Seq<VariantView>, Seq<u8>),
        StatusCode,
    >((values, tail))) by {
        lemma_scalars_round_trip(values, type_id, tail, limits, Seq::empty());
        assert(Seq::<VariantView>::empty() + values =~= values);
    }
    lemma_array_tail_round_trip(values, dimensions, rest, limits);
}

/// One value of a built-in type is read back from its wire form as a
/// variant.
proof fn lemma_scalar_variant_round_trip(v: VariantView, rest: Seq<u8>, limits: DecodingLimits)
    requires
        is_scalar(v),
        scalar_encodable(v),
        scalar_within(v, limits),
    ensures
        variant_decoding(seq![scalar_type_id(v)] + scalar_encoding(v) + rest, limits) == Ok::<
            (VariantView, Seq<u8>),
            StatusCode,
        >((v, rest)),
    decreases v, 1nat,
{
    let s = seq![scalar_type_id(v)] + scalar_encoding(v) + rest;
    let body = scalar_encoding(v) + rest;
    lemma_concat_assoc(seq![scalar_type_id(v)], scalar_encoding(v), rest);
    assert(s.skip(1) =~= body);
    assert(s[0] == scalar_type_id(v));
    lemma_scalar_round_trip(v, rest, limits);
}

/// A variant is read back from its wire form.
pub proof fn lemma_variant_round_trip(v: VariantView, rest: Seq<u8>, limits: DecodingLimits)
    requires
        variant_encodable(v),
        variant_within(v, limits),
    ensures
        variant_decoding(variant_encoding(v) + rest, limits) == Ok::<
            (VariantView, Seq<u8>),
            StatusCode,
        >((v, rest)),
    decreases v, 3nat,
{
    match v {
        VariantView::Array(values) => {
            lemma_array_round_trip_of(values, rest, limits);
        },
        VariantView::MultiDimensionArray(values, dimensions) => {
            lemma_multi_dimension_round_trip(values, dimensions, rest, limits);
        },
        VariantView::Empty => {
            let s = variant_encoding(v) + rest;
            assert(s.skip(1) =~= rest);
        },
        _ => {
            lemma_scalar_variant_round_trip(v, rest, limits);
        },
    }
}

/// A data value is read back from its wire form.
pub proof fn lemma_data_value_round_trip(v: DataValueView, rest: Seq<u8>, limits: DecodingLimits)
    requires
        data_value_encodable(v),
        data_value_within(v, limits),
    ensures
        data_value_decoding(data_value_encoding(v) + rest, limits) == Ok::<
            (DataValueView, Seq<u8>),
            StatusCode,
        >((v, rest)),
    decreases v, 0nat,
{
    let p0 = seq![0x3fu8];
    let p1 = variant_encoding(*v.value);
    let p2 = StatusCode::encoding(v.status);
    let p3 = DateTime::encoding(v.source_timestamp);
    let p4 = i16::encoding(v.source_pico_seconds);
    let p5 = DateTime::encoding(v.server_timestamp);
    let p6 = i16::encoding(v.server_pico_seconds);
    let r6 = p6 + rest;
    let r5 = p5 + r6;
    let r4 = p4 + r5;
    let r3 = p3 + r4;
    let r2 = p2 + r3;
    let r1 = p1 + r2;
    lemma_concat_assoc(p0 + p1 + p2 + p3 + p4 + p5, p6, rest);
    lemma_concat_assoc(p0 + p1 + p2 + p3 + p4, p5, r6);
    lemma_concat_assoc(p0 + p1 + p2 + p3, p4, r5);
    lemma_concat_assoc(p0 + p1 + p2, p3, r4);
    lemma_concat_assoc(p0 + p1, p2, r3);
    lemma_concat_assoc(p0, p1, r2);
    let s = data_value_encoding(v) + rest;
    assert(s == p0 + r1);
    assert(s.skip(1) =~= r1);
    assert(s[0] == 0x3fu8);
    lemma_variant_round_trip(*v.value, r2, limits);
    lemma_optional_round_trip::<StatusCode>(Some(v.status), r3, limits);
    lemma_optional_round_trip::<DateTime>(Some(v.source_timestamp), r4, limits);
    lemma_optional_round_trip::<i16>(Some(v.source_pico_seconds), r5, limits);
    lemma_optional_round_trip::<DateTime>(Some(v.server_timestamp), r6, limits);
    lemma_optional_round_trip::<i16>(Some(v.server_pico_seconds), rest, limits);
    let tail = DataValueTail {
        status: Some(v.status),
        source_timestamp: Some(v.source_timestamp),
        source_pico_seconds: Some(v.source_pico_seconds),
        server_timestamp: Some(v.server_timestamp),
        server_pico_seconds: Some(v.server_pico_seconds),
    };
    assert(data_value_tail_decoding(0x3fu8, r2, limits) == Ok::<
        (DataValueTail, Seq<u8>),
        StatusCode,
    >((tail, rest)));
    assert(data_value_of(*v.value, tail) == v);
}

impl BinaryEncoder for Variant {
    open spec fn encoding(v: VariantView) -> Seq<u8> {
        variant_encoding(v)
    }

    open spec fn encodable(v: VariantView) -> bool {
        variant_encodable(v)
    }

    open spec fn within(v: VariantView, limits: DecodingLimits) -> bool {
        variant_within(v, limits)
    }

    open spec fn decoding(s: Seq<u8>, limits: DecodingLimits) -> Result<
        (VariantView, Seq<u8>),
        StatusCode,
    > {
        variant_decoding(s, limits)
    }

    proof fn lemma_round_trip(v: VariantView, rest: Seq<u8>, limits: DecodingLimits) {
        lemma_variant_round_trip(v, rest, limits);
    }

    fn byte_len(&self) -> (r: usize) {
        byte_len_variant(self)
    }

    fn encode(&self, stream: &mut Vec<u8>) -> (r: EncodingResult<usize>) {
        let start = stream.len();
        proof {
            lemma_extends_refl(stream@);
        }
        encode_variant(self, stream, Ghost(stream@))?;
        Ok(stream.len() - start)
    }

    fn decode(stream: &mut ReadStream, limits: &DecodingLimits) -> (r: EncodingResult<Self>) {
        decode_variant(stream, limits)
    }
}

impl BinaryEncoder for DataValue {
    open spec fn encoding(v: DataValueView) -> Seq<u8> {
        data_value_encoding(v)
    }

    open spec fn encodable(v: DataValueView) -> bool {
        data_value_encodable(v)
    }

    open spec fn within(v: DataValueView, limits: DecodingLimits) -> bool {
        data_value_within(v, limits)
    }

    open spec fn decoding(s: Seq<u8>, limits: DecodingLimits) -> Result<
        (DataValueView, Seq<u8>),
        StatusCode,
    > {
        data_value_decoding(s, limits)
    }

    proof fn lemma_round_trip(v: DataValueView, rest: Seq<u8>, limits: DecodingLimits) {
        lemma_data_value_round_trip(v, rest, limits);
    }

    fn byte_len(&self) -> (r: usize) {
        byte_len_data_value(self)
    }

    fn encode(&self, stream: &mut Vec<u8>) -> (r: EncodingResult<usize>) {
        let start = stream.len();
        proof {
            lemma_extends_refl(stream@);
        }
        encode_data_value(self, stream, Ghost(stream@))?;
        Ok(stream.len() - start)
    }

    fn decode(stream: &mut ReadStream, limits: &DecodingLimits) -> (r: EncodingResult<Self>) {
        decode_data_value(stream, limits)
    }
}

/// A copy of a variant, with all that it holds.
fn duplicate_variant(v: &Variant) -> (r: Variant)
    ensures
        r@ == v@,
    decreases v, 1nat,
{
    match v {
        Variant::Empty => Variant::Empty,
        Variant::Boolean(x) => Variant::Boolean(*x),
        Variant::SByte(x) => Variant::SByte(*x),
        Variant::Byte(x) => Variant::Byte(*x),
        Variant::Int16(x) => Variant::Int16(*x),
        Variant::UInt16(x) => Variant::UInt16(*x),
        Variant::Int32(x) => Variant::Int32(*x),
        Variant::UInt32(x) => Variant::UInt32(*x),
        Variant::Int64(x) => Variant::Int64(*x),
        Variant::UInt64(x) => Variant::UInt64(*x),
        Variant::Float(x) => Variant::Float(*x),
        Variant::Double(x) => Variant::Double(*x),
        Variant::String(x) => Variant::String(x.clone()),
        Variant::DateTime(x) => Variant::DateTime(*x),
        Variant::Guid(x) => Variant::Guid(*x),
        Variant::ByteString(x) => Variant::ByteString(x.clone()),
        Variant::XmlElement(x) => Variant::XmlElement(x.clone()),
        Variant::NodeId(x) => Variant::NodeId(Box::new((**x).clone())),
        Variant::StatusCode(x) => Variant::StatusCode(*x),
        Variant::QualifiedName(x) => Variant::QualifiedName(Box::new((**x).clone())),
        Variant::LocalizedText(x) => Variant::LocalizedText(Box::new((**x).clone())),
        Variant::ExtensionObject(x) => Variant::ExtensionObject(Box::new((**x).clone())),
        Variant::DataValue(x) => Variant::DataValue(Box::new(duplicate_data_value(x))),
        Variant::Array(values) => Variant::Array(duplicate_variants(values)),
        Variant::MultiDimensionArray(a) => Variant::MultiDimensionArray(
            Box::new(
                MultiDimensionArray {
                    values: duplicate_variants(&a.values),
                    dimensions: a.dimensions.clone(),
                },
            ),
        ),
    }
}

/// Copies of the variants of a vector.
fn duplicate_variants(values: &Vec<Variant>) -> (r: Vec<Variant>)
    ensures
        variants_view(r@) == variants_view(values@),
    decreases values, 2nat,
{
    let mut copies: Vec<Variant> = Vec::new();
    let mut i: usize = 0;
    proof {
        assert(values@.take(0) =~= Seq::<Variant>::empty());
    }
    while i < values.len()
        invariant
            i <= values.len(),
            variants_view(copies@) == variants_view(values@.take(i as int)),
        decreases values.len() - i,
    {
        let ghost before = copies@;
        copies.push(duplicate_variant(&values[i]));
        proof {
            assert(copies@.drop_last() =~= before);
            assert(values@.take(i + 1).drop_last() =~= values@.take(i as int));
            assert(values@.take(i + 1).last() == values@[i as int]);
        }
        i += 1;
    }
    proof {
        assert(values@.take(i as int) =~= values@);
    }
    copies
}

/// A copy of a data value, with all that it holds.
fn duplicate_data_value(v: &DataValue) -> (r: DataValue)
    ensures
        r@ == v@,
    decreases v, 2nat,
{
    DataValue {
        value: Box::new(duplicate_variant(&v.value)),
        status: v.status,
        source_timestamp: v.source_timestamp,
        source_pico_seconds: v.source_pico_seconds,
        server_timestamp: v.server_timestamp,
        server_pico_seconds: v.server_pico_seconds,
    }
}

impl Clone for Variant {
    fn clone(&self) -> (r: Self)
        ensures
            r@ == self@,
    {
        duplicate_variant(self)
    }
}

impl Clone for MultiDimensionArray {
    fn clone(&self) -> (r: Self)
        ensures
            variants_view(r.values@) == variants_view(self.values@),
            r.dimensions@ == self.dimensions@,
    {
        MultiDimensionArray {
            values: duplicate_variants(&self.values),
            dimensions: self.dimensions.clone(),
        }
    }
}

impl Clone for DataValue {
    fn clone(&self) -> (r: Self)
        ensures
            r@ == self@,
    {
        duplicate_data_value(self)
    }
}

/// The data value that holds a value and nothing else: the status is good,
/// the time stamps are the start of 1601 and there are no picoseconds.
pub open spec fn value_only(value: VariantView) -> DataValueView {
    DataValueView {
        value: Box::new(value),
        status: StatusCode::Good,
        source_timestamp: 0,
        source_pico_seconds: 0,
        server_timestamp: 0,
        server_pico_seconds: 0,
    }
}

/// The data value that holds a value that its source and the server have
/// stamped with the given time.
pub open spec fn value_at(value: VariantView, now: i64) -> DataValueView {
    DataValueView {
        value: Box::new(value),
        status: StatusCode::Good,
        source_timestamp: now,
        source_pico_seconds: 0,
        server_timestamp: now,
        server_pico_seconds: 0,
    }
}

impl DataValue {
    /// The data value that holds a value and nothing else.
    pub fn value_only(value: Variant) -> (r: DataValue)
        ensures
            r@ == value_only(value@),
    {
        DataValue {
            value: Box::new(value),
            status: StatusCode::Good,
            source_timestamp: DateTime::epoch(),
            source_pico_seconds: 0,
            server_timestamp: DateTime::epoch(),
            server_pico_seconds: 0,
        }
    }

    /// The data value that holds a value that its source and the server have
    /// stamped with the given time.
    pub fn new_at(value: Variant, now: &DateTime) -> (r: DataValue)
        ensures
            r@ == value_at(value@, now@),
    {
        DataValue {
            value: Box::new(value),
            status: StatusCode::Good,
            source_timestamp: *now,
            source_pico_seconds: 0,
            server_timestamp: *now,
            server_pico_seconds: 0,
        }
    }

    /// The data value that holds a value that its source and the server
    /// stamp now.
    pub fn new(value: Variant) -> (r: DataValue)
        ensures
            r@ == value_at(value@, r@.source_timestamp),
    {
        DataValue::new_at(value, &DateTime::now())
    }
}

/// The data type of the value of a variant: that of a scalar, that of the
/// first value of an array, and none for no value and for an array without
/// values.
pub open spec fn data_type_of(v: VariantView) -> Option<DataTypeId> {
    match v {
        VariantView::Empty => None,
        VariantView::Array(values) => if values.len() == 0 {
            None
        } else {
            DataTypeId::spec_from_u32(scalar_type_id(values[0]) as u32)
        },
        VariantView::MultiDimensionArray(values, _) => if values.len() == 0 {
            None
        } else {
            DataTypeId::spec_from_u32(scalar_type_id(values[0]) as u32)
        },
        _ => DataTypeId::spec_from_u32(scalar_type_id(v) as u32),
    }
}

/// The numbers that an array of unsigned 32 bit numbers holds; none for
/// another variant.
pub open spec fn u32_array_of(v: VariantView) -> Option<Seq<u32>> {
    match v {
        VariantView::Array(values) => if forall|i: int|
            0 <= i < values.len() ==> (#[trigger] values[i]) is UInt32 {
            Some(Seq::new(values.len(), |i: int| values[i]->UInt32_0))
        } else {
            None
        },
        _ => None,
    }
}

impl Variant {
    /// The data type of the value.
    pub fn data_type(&self) -> (r: Option<DataTypeId>)
        ensures
            r == data_type_of(self@),
    {
        match self {
            Variant::Empty => None,
            Variant::Array(values) => {
                proof {
                    lemma_variants_view(values@);
                }
                if values.len() == 0 {
                    None
                } else {
                    DataTypeId::from_u32(values[0].type_id() as u32)
                }
            },
            Variant::MultiDimensionArray(a) => {
                proof {
                    lemma_variants_view(a.values@);
                }
                if a.values.len() == 0 {
                    None
                } else {
                    DataTypeId::from_u32(a.values[0].type_id() as u32)
                }
            },
            _ => DataTypeId::from_u32(self.type_id() as u32),
        }
    }

    /// The numbers of an array of unsigned 32 bit numbers.
    pub fn to_u32_array(&self) -> (r: Option<Vec<u32>>)
        ensures
            match u32_array_of(self@) {
                Some(numbers) => r is Some && r.unwrap()@ == numbers,
                None => r is None,
            },
    {
        match self {
            Variant::Array(values) => {
                let ghost views = variants_view(values@);
                proof {
                    lemma_variants_view(values@);
                }
                let mut numbers: Vec<u32> = Vec::new();
                let mut i: usize = 0;
                while i < values.len()
                    invariant
                        i <= values.len(),
                        self@ == VariantView::Array(views),
                        views == variants_view(values@),
                        views.len() == values.len(),
                        forall|k: int| 0 <= k < values.len() ==> views[k] == variant_view(values[k]),
                        numbers@.len() == i,
                        forall|k: int| 0 <= k < i ==> (#[trigger] views[k]) is UInt32,
                        forall|k: int| 0 <= k < i ==> numbers@[k] == views[k]->UInt32_0,
                    decreases values.len() - i,
                {
                    match &values[i] {
                        Variant::UInt32(number) => {
                            numbers.push(*number);
                        },
                        _ => {
                            assert(!(views[i as int] is UInt32));
                            return None;
                        },
                    }
                    i += 1;
                }
                proof {
                    assert(numbers@ =~= Seq::new(views.len(), |i: int| views[i]->UInt32_0));
                }
                Some(numbers)
            },
            _ => None,
        }
    }

    /// The array of unsigned 32 bit numbers that holds the given numbers.
    pub fn from_u32_array(numbers: &[u32]) -> (r: Variant)
        ensures
            r@ == VariantView::Array(Seq::new(numbers@.len(), |i: int| VariantView::UInt32(numbers@[i]))),
    {
        let mut values: Vec<Variant> = Vec::new();
        let mut i: usize = 0;
        proof {
            assert(variants_view(values@) =~= Seq::<VariantView>::empty());
        }
        while i < numbers.len()
            invariant
                i <= numbers.len(),
                variants_view(values@) == Seq::new(
                    i as nat,
                    |k: int| VariantView::UInt32(numbers@[k]),
                ),
            decreases numbers.len() - i,
        {
            let ghost before = values@;
            values.push(Variant::UInt32(numbers[i]));
            proof {
                assert(values@.drop_last() =~= before);
                assert(variants_view(values@) == variants_view(before).push(
                    variant_view(values@.last()),
                ));
                assert(variants_view(values@) =~= Seq::new(
                    (i + 1) as nat,
                    |k: int| VariantView::UInt32(numbers@[k]),
                ));
            }
            i += 1;
        }
        Variant::Array(values)
    }
}

} // verus!
