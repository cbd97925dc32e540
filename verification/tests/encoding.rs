use opcua::byte_string::ByteString;
use opcua::diagnostic_info::DiagnosticInfo;
use opcua::encoding::{
    add_len, byte_len_array, byte_len_optional, read_array, read_bool, read_i16, read_i32,
    read_i64, read_length_prefixed, read_optional, read_u16, read_u32, read_u64, read_u8,
    write_array, write_bool, write_bytes, write_i16, write_i32, write_i64, write_length_prefixed,
    write_optional, write_u16, write_u32, write_u64, write_u8, BinaryEncoder, DecodingLimits,
    ReadStream,
};
use opcua::constants::{MAX_ARRAY_LENGTH, MAX_BYTE_STRING_LENGTH, MAX_STRING_LENGTH};
use opcua::extension_object::{ExtensionObject, ExtensionObjectEncoding};
use opcua::guid::Guid;
use opcua::localized_text::LocalizedText;
use opcua::node_id::{Identifier, NodeId};
use opcua::qualified_name::QualifiedName;
use opcua::status_codes::StatusCode;
use opcua::string::UAString;

fn limits() -> DecodingLimits {
    DecodingLimits::default()
}

fn encoded<T: BinaryEncoder>(value: &T) -> Vec<u8> {
    let mut stream = Vec::new();
    let size = value.encode(&mut stream).unwrap();
    assert_eq!(size, stream.len());
    assert_eq!(value.byte_len(), stream.len());
    stream
}

#[test]
fn default_limits() {
    let limits = DecodingLimits::default();
    assert_eq!(limits.max_array_length, 100000);
    assert_eq!(limits.max_string_length, 65536);
    assert_eq!(limits.max_byte_string_length, 65536);
    assert_eq!(MAX_ARRAY_LENGTH, 100000);
    assert_eq!(MAX_STRING_LENGTH, 65536);
    assert_eq!(MAX_BYTE_STRING_LENGTH, 65536);
}

#[test]
fn read_stream_takes_bytes_off_the_front() {
    let data = [1u8, 2, 3, 4, 5];
    let mut stream = ReadStream::new(&data);
    assert_eq!(stream.remaining(), 5);
    assert_eq!(stream.read_bytes(2), Ok(&data[0..2]));
    assert_eq!(stream.remaining(), 3);
    assert_eq!(stream.read_bytes(4), Err(StatusCode::BadDecodingError));
    assert_eq!(stream.remaining(), 3);
    assert_eq!(stream.read_bytes(3), Ok(&data[2..5]));
    assert_eq!(stream.read_bytes(0), Ok(&data[0..0]));
    assert_eq!(stream.read_bytes(1), Err(StatusCode::BadDecodingError));
}

#[test]
fn integers_are_little_endian() {
    let mut s = Vec::new();
    assert_eq!(write_u8(&mut s, 0xab), Ok(1));
    assert_eq!(write_u16(&mut s, 0x1234), Ok(2));
    assert_eq!(write_i16(&mut s, -2), Ok(2));
    assert_eq!(write_u32(&mut s, 0x89abcdef), Ok(4));
    assert_eq!(write_i32(&mut s, -1), Ok(4));
    assert_eq!(write_u64(&mut s, 0x0102030405060708), Ok(8));
    assert_eq!(write_i64(&mut s, i64::MIN), Ok(8));
    assert_eq!(write_bool(&mut s, true), Ok(1));
    assert_eq!(write_bool(&mut s, false), Ok(1));
    assert_eq!(
        s,
        vec![
            0xab, 0x34, 0x12, 0xfe, 0xff, 0xef, 0xcd, 0xab, 0x89, 0xff, 0xff, 0xff, 0xff, 0x08,
            0x07, 0x06, 0x05, 0x04, 0x03, 0x02, 0x01, 0, 0, 0, 0, 0, 0, 0, 0x80, 1, 0
        ]
    );
    let mut r = ReadStream::new(&s);
    assert_eq!(read_u8(&mut r), Ok(0xab));
    assert_eq!(read_u16(&mut r), Ok(0x1234));
    assert_eq!(read_i16(&mut r), Ok(-2));
    assert_eq!(read_u32(&mut r), Ok(0x89abcdef));
    assert_eq!(read_i32(&mut r), Ok(-1));
    assert_eq!(read_u64(&mut r), Ok(0x0102030405060708));
    assert_eq!(read_i64(&mut r), Ok(i64::MIN));
    assert_eq!(read_bool(&mut r), Ok(true));
    assert_eq!(read_bool(&mut r), Ok(false));
    assert_eq!(r.remaining(), 0);
    assert_eq!(read_u8(&mut r), Err(StatusCode::BadDecodingError));
}

#[test]
fn integers_that_end_too_early() {
    let data = [1u8, 2, 3];
    assert_eq!(read_u32(&mut ReadStream::new(&data)), Err(StatusCode::BadDecodingError));
    assert_eq!(read_i32(&mut ReadStream::new(&data)), Err(StatusCode::BadDecodingError));
    assert_eq!(read_u64(&mut ReadStream::new(&data)), Err(StatusCode::BadDecodingError));
    assert_eq!(read_i64(&mut ReadStream::new(&data)), Err(StatusCode::BadDecodingError));
    assert_eq!(read_u16(&mut ReadStream::new(&data[0..1])), Err(StatusCode::BadDecodingError));
    assert_eq!(read_i16(&mut ReadStream::new(&data[0..1])), Err(StatusCode::BadDecodingError));
    assert_eq!(read_bool(&mut ReadStream::new(&[])), Err(StatusCode::BadDecodingError));
}

#[test]
fn a_boolean_is_true_only_for_one() {
    assert_eq!(read_bool(&mut ReadStream::new(&[2])), Ok(false));
    assert_eq!(read_bool(&mut ReadStream::new(&[0xff])), Ok(false));
    assert_eq!(read_bool(&mut ReadStream::new(&[1])), Ok(true));
}

#[test]
fn primitives_through_the_trait() {
    assert_eq!(encoded(&7u8), vec![7]);
    assert_eq!(encoded(&true), vec![1]);
    assert_eq!(encoded(&0x0102u16), vec![2, 1]);
    assert_eq!(encoded(&-1i16), vec![0xff, 0xff]);
    assert_eq!(encoded(&1u32), vec![1, 0, 0, 0]);
    assert_eq!(encoded(&i32::MIN), vec![0, 0, 0, 0x80]);
    assert_eq!(encoded(&u64::MAX), vec![0xff; 8]);
    assert_eq!(encoded(&-2i64), vec![0xfe, 0xff, 0xff, 0xff, 0xff, 0xff, 0xff, 0xff]);
    let l = limits();
    assert_eq!(u8::decode(&mut ReadStream::new(&[7]), &l), Ok(7));
    assert_eq!(bool::decode(&mut ReadStream::new(&[1]), &l), Ok(true));
    assert_eq!(u16::decode(&mut ReadStream::new(&[2, 1]), &l), Ok(0x0102));
    assert_eq!(i16::decode(&mut ReadStream::new(&[0xff, 0xff]), &l), Ok(-1));
    assert_eq!(u32::decode(&mut ReadStream::new(&[1, 0, 0, 0]), &l), Ok(1));
    assert_eq!(i32::decode(&mut ReadStream::new(&[0, 0, 0, 0x80]), &l), Ok(i32::MIN));
    assert_eq!(u64::decode(&mut ReadStream::new(&[0xff; 8]), &l), Ok(u64::MAX));
    assert_eq!(i64::decode(&mut ReadStream::new(&[0xfe, 0xff, 0xff, 0xff, 0xff, 0xff, 0xff, 0xff]), &l), Ok(-2));
}

#[test]
fn add_len_saturates() {
    assert_eq!(add_len(3, 4), 7);
    assert_eq!(add_len(usize::MAX, 1), usize::MAX);
    assert_eq!(add_len(usize::MAX - 1, 1), usize::MAX);
    assert_eq!(add_len(1, usize::MAX), usize::MAX);
}

#[test]
fn write_bytes_appends() {
    let mut s = vec![1u8];
    assert_eq!(write_bytes(&mut s, &[2, 3]), Ok(2));
    assert_eq!(write_bytes(&mut s, &[]), Ok(0));
    assert_eq!(s, vec![1, 2, 3]);
}

#[test]
fn length_prefixed_bytes() {
    let mut s = Vec::new();
    assert_eq!(write_length_prefixed(&mut s, None), Ok(4));
    assert_eq!(write_length_prefixed(&mut s, Some(&[])), Ok(4));
    assert_eq!(write_length_prefixed(&mut s, Some(&[9, 8, 7])), Ok(7));
    assert_eq!(s, vec![0xff, 0xff, 0xff, 0xff, 0, 0, 0, 0, 3, 0, 0, 0, 9, 8, 7]);
    let mut r = ReadStream::new(&s);
    assert_eq!(read_length_prefixed(&mut r, 10), Ok(None));
    assert_eq!(read_length_prefixed(&mut r, 10), Ok(Some(vec![])));
    assert_eq!(read_length_prefixed(&mut r, 3), Ok(Some(vec![9, 8, 7])));
    assert_eq!(r.remaining(), 0);
}

#[test]
fn length_prefixed_bytes_errors() {
    // a length below -1
    let data = [0xfe, 0xff, 0xff, 0xff];
    assert_eq!(read_length_prefixed(&mut ReadStream::new(&data), 10), Err(StatusCode::BadDecodingError));
    // a length above the limit
    let data = [3, 0, 0, 0, 9, 8, 7];
    assert_eq!(
        read_length_prefixed(&mut ReadStream::new(&data), 2),
        Err(StatusCode::BadEncodingLimitsExceeded)
    );
    // fewer bytes than the length says
    let data = [4, 0, 0, 0, 9, 8, 7];
    assert_eq!(read_length_prefixed(&mut ReadStream::new(&data), 10), Err(StatusCode::BadDecodingError));
    // no length at all
    let data = [4, 0];
    assert_eq!(read_length_prefixed(&mut ReadStream::new(&data), 10), Err(StatusCode::BadDecodingError));
    // the largest length is refused by the limit, not by an allocation
    let data = [0xff, 0xff, 0xff, 0x7f];
    assert_eq!(
        read_length_prefixed(&mut ReadStream::new(&data), 65536),
        Err(StatusCode::BadEncodingLimitsExceeded)
    );
}

#[test]
fn absent_array_is_not_the_empty_array() {
    let absent: Option<Vec<u32>> = None;
    let empty: Option<Vec<u32>> = Some(vec![]);
    let mut s = Vec::new();
    assert_eq!(write_array(&mut s, &absent), Ok(4));
    assert_eq!(s, vec![0xff, 0xff, 0xff, 0xff]);
    assert_eq!(byte_len_array(&absent), 4);
    let mut s = Vec::new();
    assert_eq!(write_array(&mut s, &empty), Ok(4));
    assert_eq!(s, vec![0, 0, 0, 0]);
    assert_eq!(byte_len_array(&empty), 4);
    let l = limits();
    assert_eq!(read_array::<u32>(&mut ReadStream::new(&[0xff, 0xff, 0xff, 0xff]), &l), Ok(None));
    assert_eq!(read_array::<u32>(&mut ReadStream::new(&[0, 0, 0, 0]), &l), Ok(Some(vec![])));
}

#[test]
fn array_of_integers() {
    let values: Option<Vec<u16>> = Some(vec![1, 2, 0x0304]);
    let mut s = vec![0xaa];
    assert_eq!(write_array(&mut s, &values), Ok(10));
    assert_eq!(s, vec![0xaa, 3, 0, 0, 0, 1, 0, 2, 0, 4, 3]);
    assert_eq!(byte_len_array(&values), 10);
    let mut r = ReadStream::new(&s[1..]);
    assert_eq!(read_array::<u16>(&mut r, &limits()), Ok(values));
    assert_eq!(r.remaining(), 0);
}

#[test]
fn array_of_strings() {
    let values = Some(vec![UAString::from_str("ab"), UAString::null(), UAString::from_str("")]);
    let mut s = Vec::new();
    assert_eq!(write_array(&mut s, &values), Ok(18));
    assert_eq!(
        s,
        vec![3, 0, 0, 0, 2, 0, 0, 0, b'a', b'b', 0xff, 0xff, 0xff, 0xff, 0, 0, 0, 0]
    );
    let mut r = ReadStream::new(&s);
    assert_eq!(read_array::<UAString>(&mut r, &limits()), Ok(values));
}

#[test]
fn array_errors() {
    let mut l = limits();
    l.max_array_length = 2;
    // more items than the limit allows: refused before an item is read
    let data = [3, 0, 0, 0];
    assert_eq!(read_array::<u8>(&mut ReadStream::new(&data), &l), Err(StatusCode::BadEncodingLimitsExceeded));
    // as many as the limit allows
    let data = [2, 0, 0, 0, 7, 8];
    assert_eq!(read_array::<u8>(&mut ReadStream::new(&data), &l), Ok(Some(vec![7, 8])));
    // a length below -1
    let data = [0xfe, 0xff, 0xff, 0xff];
    assert_eq!(read_array::<u8>(&mut ReadStream::new(&data), &l), Err(StatusCode::BadDecodingError));
    // fewer items than the length says
    let data = [2, 0, 0, 0, 7];
    assert_eq!(read_array::<u8>(&mut ReadStream::new(&data), &l), Err(StatusCode::BadDecodingError));
    // the error of an item is the error of the array
    let data = [1, 0, 0, 0, 1, 0, 0, 0, 0xff];
    assert_eq!(read_array::<UAString>(&mut ReadStream::new(&data), &l), Err(StatusCode::BadDecodingError));
    let data = [1, 0, 0, 0, 0x34, 0x12, 0, 0];
    assert_eq!(read_array::<StatusCode>(&mut ReadStream::new(&data), &l), Err(StatusCode::BadDecodingError));
    let data = [0xff, 0xff, 0xff, 0x7f];
    assert_eq!(
        read_array::<u64>(&mut ReadStream::new(&data), &limits()),
        Err(StatusCode::BadEncodingLimitsExceeded)
    );
}

#[test]
fn optional_parts() {
    let mut s = Vec::new();
    assert_eq!(write_optional::<u32>(&mut s, &None), Ok(0));
    assert_eq!(write_optional(&mut s, &Some(5u32)), Ok(4));
    assert_eq!(s, vec![5, 0, 0, 0]);
    assert_eq!(byte_len_optional::<u32>(&None), 0);
    assert_eq!(byte_len_optional(&Some(5u32)), 4);
    let l = limits();
    let mut r = ReadStream::new(&s);
    assert_eq!(read_optional::<u32>(false, &mut r, &l), Ok(None));
    assert_eq!(r.remaining(), 4);
    assert_eq!(read_optional::<u32>(true, &mut r, &l), Ok(Some(5)));
    assert_eq!(read_optional::<u32>(true, &mut r, &l), Err(StatusCode::BadDecodingError));
}

#[test]
fn strings() {
    assert_eq!(encoded(&UAString::null()), vec![0xff, 0xff, 0xff, 0xff]);
    assert_eq!(encoded(&UAString::from_str("")), vec![0, 0, 0, 0]);
    assert_eq!(encoded(&UAString::from_str("hé")), vec![3, 0, 0, 0, b'h', 0xc3, 0xa9]);
    assert!(UAString::null().is_null());
    assert!(UAString::null().is_empty());
    assert!(!UAString::from_str("").is_null());
    assert!(UAString::from_str("").is_empty());
    assert!(!UAString::from_str("x").is_empty());
    let l = limits();
    let data = [3, 0, 0, 0, b'h', 0xc3, 0xa9, 0x77];
    let mut r = ReadStream::new(&data);
    assert_eq!(UAString::decode(&mut r, &l), Ok(UAString::from_str("hé")));
    assert_eq!(r.remaining(), 1);
    assert_eq!(UAString::decode(&mut ReadStream::new(&[0xff, 0xff, 0xff, 0xff]), &l), Ok(UAString::null()));
    assert_eq!(UAString::from_str("abc").clone(), UAString::from_str("abc"));
}

#[test]
fn string_errors() {
    let mut l = limits();
    // bytes that are not UTF-8
    let data = [2, 0, 0, 0, 0xc3, 0x28];
    assert_eq!(UAString::decode(&mut ReadStream::new(&data), &l), Err(StatusCode::BadDecodingError));
    // a text that ends too early
    let data = [5, 0, 0, 0, b'a'];
    assert_eq!(UAString::decode(&mut ReadStream::new(&data), &l), Err(StatusCode::BadDecodingError));
    // a length below -1
    let data = [0xf0, 0xff, 0xff, 0xff];
    assert_eq!(UAString::decode(&mut ReadStream::new(&data), &l), Err(StatusCode::BadDecodingError));
    // a text longer than the limit
    l.max_string_length = 2;
    let data = [3, 0, 0, 0, b'a', b'b', b'c'];
    assert_eq!(
        UAString::decode(&mut ReadStream::new(&data), &l),
        Err(StatusCode::BadEncodingLimitsExceeded)
    );
    let data = [2, 0, 0, 0, b'a', b'b'];
    assert_eq!(UAString::decode(&mut ReadStream::new(&data), &l), Ok(UAString::from_str("ab")));
}

#[test]
fn byte_strings() {
    assert_eq!(encoded(&ByteString::null()), vec![0xff, 0xff, 0xff, 0xff]);
    assert_eq!(encoded(&ByteString::from_bytes(&[])), vec![0, 0, 0, 0]);
    assert_eq!(encoded(&ByteString::from_bytes(&[0xc3, 0x28])), vec![2, 0, 0, 0, 0xc3, 0x28]);
    assert!(ByteString::null().is_null());
    assert!(ByteString::null().is_null_or_empty());
    assert!(!ByteString::from_bytes(&[]).is_null());
    assert!(ByteString::from_bytes(&[]).is_null_or_empty());
    assert!(!ByteString::from_bytes(&[1]).is_null_or_empty());
    let mut l = limits();
    let data = [2, 0, 0, 0, 0xc3, 0x28];
    assert_eq!(ByteString::decode(&mut ReadStream::new(&data), &l), Ok(ByteString::from_bytes(&[0xc3, 0x28])));
    l.max_byte_string_length = 1;
    assert_eq!(
        ByteString::decode(&mut ReadStream::new(&data), &l),
        Err(StatusCode::BadEncodingLimitsExceeded)
    );
    assert_eq!(ByteString::from_bytes(&[1, 2]).clone(), ByteString::from_bytes(&[1, 2]));
}

#[test]
fn guids() {
    let guid = Guid { data1: 0x01020304, data2: 0x0506, data3: 0x0708, data4: 0x1112131415161718 };
    let bytes = encoded(&guid);
    assert_eq!(
        bytes,
        vec![4, 3, 2, 1, 6, 5, 8, 7, 0x18, 0x17, 0x16, 0x15, 0x14, 0x13, 0x12, 0x11]
    );
    assert_eq!(Guid::decode(&mut ReadStream::new(&bytes), &limits()), Ok(guid));
    assert!(Guid::null().is_null());
    assert!(!guid.is_null());
    assert_eq!(Guid::decode(&mut ReadStream::new(&bytes[0..15]), &limits()), Err(StatusCode::BadDecodingError));
}

#[test]
fn node_id_layouts() {
    // two bytes
    assert_eq!(encoded(&NodeId::new_numeric(0, 255)), vec![0, 255]);
    assert_eq!(encoded(&NodeId::null()), vec![0, 0]);
    // four bytes
    assert_eq!(encoded(&NodeId::new_numeric(0, 256)), vec![1, 0, 0, 1]);
    assert_eq!(encoded(&NodeId::new_numeric(1, 5)), vec![1, 1, 5, 0]);
    assert_eq!(encoded(&NodeId::new_numeric(255, 65535)), vec![1, 255, 0xff, 0xff]);
    // seven bytes
    assert_eq!(encoded(&NodeId::new_numeric(256, 5)), vec![2, 0, 1, 5, 0, 0, 0]);
    assert_eq!(encoded(&NodeId::new_numeric(0, 65536)), vec![2, 0, 0, 0, 0, 1, 0]);
    // string
    assert_eq!(encoded(&NodeId::new_string(2, "ab")), vec![3, 2, 0, 2, 0, 0, 0, b'a', b'b']);
    // guid
    let guid = Guid { data1: 1, data2: 2, data3: 3, data4: 4 };
    assert_eq!(
        encoded(&NodeId { namespace: 7, identifier: Identifier::Guid(guid) }),
        vec![4, 7, 0, 1, 0, 0, 0, 2, 0, 3, 0, 4, 0, 0, 0, 0, 0, 0, 0]
    );
    // byte string
    assert_eq!(
        encoded(&NodeId { namespace: 7, identifier: Identifier::ByteString(ByteString::from_bytes(&[9])) }),
        vec![5, 7, 0, 1, 0, 0, 0, 9]
    );
}

#[test]
fn node_id_round_trips() {
    let guid = Guid { data1: 1, data2: 2, data3: 3, data4: 4 };
    let ids = vec![
        NodeId::null(),
        NodeId::new_numeric(0, 255),
        NodeId::new_numeric(0, 256),
        NodeId::new_numeric(255, 65535),
        NodeId::new_numeric(256, 0),
        NodeId::new_numeric(65535, u32::MAX),
        NodeId::new_string(1, "Hello"),
        NodeId { namespace: 0, identifier: Identifier::String(UAString::null()) },
        NodeId { namespace: 7, identifier: Identifier::Guid(guid) },
        NodeId { namespace: 7, identifier: Identifier::ByteString(ByteString::null()) },
    ];
    for id in ids {
        let bytes = encoded(&id);
        let mut r = ReadStream::new(&bytes);
        assert_eq!(NodeId::decode(&mut r, &limits()), Ok(id.clone()));
        assert_eq!(r.remaining(), 0);
        assert_eq!(id.clone(), id);
    }
    assert!(NodeId::null().is_null());
    assert!(!NodeId::new_numeric(1, 0).is_null());
    assert!(NodeId::new_numeric(1, 0).is_numeric());
    assert!(!NodeId::new_string(1, "x").is_numeric());
    assert!(!NodeId::new_string(0, "").is_null());
}

#[test]
fn node_id_decoding_takes_every_layout_and_no_other() {
    let l = limits();
    // the seven byte layout may hold a small number
    let data = [2, 0, 0, 5, 0, 0, 0];
    assert_eq!(NodeId::decode(&mut ReadStream::new(&data), &l), Ok(NodeId::new_numeric(0, 5)));
    let data = [6, 0, 0, 5, 0, 0, 0];
    assert_eq!(NodeId::decode(&mut ReadStream::new(&data), &l), Err(StatusCode::BadDecodingError));
    let data = [0x40, 0];
    assert_eq!(NodeId::decode(&mut ReadStream::new(&data), &l), Err(StatusCode::BadDecodingError));
    let data = [1, 0, 0];
    assert_eq!(NodeId::decode(&mut ReadStream::new(&data), &l), Err(StatusCode::BadDecodingError));
    assert_eq!(NodeId::decode(&mut ReadStream::new(&[]), &l), Err(StatusCode::BadDecodingError));
}

#[test]
fn qualified_names() {
    let name = QualifiedName::new(3, "abc");
    let bytes = encoded(&name);
    assert_eq!(bytes, vec![3, 0, 3, 0, 0, 0, b'a', b'b', b'c']);
    assert_eq!(QualifiedName::decode(&mut ReadStream::new(&bytes), &limits()), Ok(name));
    assert!(QualifiedName::null().is_null());
    assert!(!QualifiedName::new(0, "").is_null());
    assert_eq!(encoded(&QualifiedName::null()), vec![0, 0, 0xff, 0xff, 0xff, 0xff]);
}

#[test]
fn localized_texts() {
    let l = limits();
    assert_eq!(encoded(&LocalizedText::null()), vec![0]);
    let text = LocalizedText::new("en", "hi");
    let bytes = encoded(&text);
    assert_eq!(bytes, vec![3, 2, 0, 0, 0, b'e', b'n', 2, 0, 0, 0, b'h', b'i']);
    assert_eq!(LocalizedText::decode(&mut ReadStream::new(&bytes), &l), Ok(text));
    let only_text = LocalizedText { locale: UAString::null(), text: UAString::from_str("") };
    let bytes = encoded(&only_text);
    assert_eq!(bytes, vec![2, 0, 0, 0, 0]);
    assert_eq!(LocalizedText::decode(&mut ReadStream::new(&bytes), &l), Ok(only_text));
    let only_locale = LocalizedText { locale: UAString::from_str("de"), text: UAString::null() };
    let bytes = encoded(&only_locale);
    assert_eq!(bytes, vec![1, 2, 0, 0, 0, b'd', b'e']);
    assert_eq!(LocalizedText::decode(&mut ReadStream::new(&bytes), &l), Ok(only_locale));
    // bits above the two lowest are not read
    assert_eq!(LocalizedText::decode(&mut ReadStream::new(&[0xfc]), &l), Ok(LocalizedText::null()));
    assert_eq!(LocalizedText::decode(&mut ReadStream::new(&[1]), &l), Err(StatusCode::BadDecodingError));
}

#[test]
fn extension_objects() {
    let l = limits();
    assert_eq!(encoded(&ExtensionObject::null()), vec![0, 0, 0]);
    assert!(ExtensionObject::null().is_null());
    let binary = ExtensionObject {
        node_id: NodeId::new_numeric(0, 446),
        body: ExtensionObjectEncoding::ByteString(ByteString::from_bytes(&[1, 2])),
    };
    assert!(!binary.is_null());
    let bytes = encoded(&binary);
    assert_eq!(bytes, vec![1, 0, 0xbe, 1, 1, 2, 0, 0, 0, 1, 2]);
    assert_eq!(ExtensionObject::decode(&mut ReadStream::new(&bytes), &l), Ok(binary));
    let xml = ExtensionObject {
        node_id: NodeId::new_numeric(0, 1),
        body: ExtensionObjectEncoding::XmlElement(UAString::from_str("<a/>")),
    };
    let bytes = encoded(&xml);
    assert_eq!(bytes, vec![0, 1, 2, 4, 0, 0, 0, b'<', b'a', b'/', b'>']);
    assert_eq!(ExtensionObject::decode(&mut ReadStream::new(&bytes), &l), Ok(xml));
    assert_eq!(ExtensionObject::decode(&mut ReadStream::new(&[0, 1, 3]), &l), Err(StatusCode::BadDecodingError));
    assert_eq!(ExtensionObject::decode(&mut ReadStream::new(&[0, 1]), &l), Err(StatusCode::BadDecodingError));
}

#[test]
fn diagnostic_infos() {
    let l = limits();
    assert_eq!(encoded(&DiagnosticInfo::new()), vec![0]);
    let inner = DiagnosticInfo {
        symbolic_id: None,
        namespace_uri: None,
        locale: None,
        localized_text: None,
        additional_info: Some(UAString::from_str("x")),
        inner_status_code: Some(StatusCode::BadTimeout),
        inner_diagnostic_info: None,
    };
    let info = DiagnosticInfo {
        symbolic_id: Some(1),
        namespace_uri: Some(2),
        locale: Some(3),
        localized_text: Some(4),
        additional_info: None,
        inner_status_code: None,
        inner_diagnostic_info: Some(Box::new(inner.clone())),
    };
    let bytes = encoded(&info);
    assert_eq!(
        bytes,
        vec![
            0x4f, 1, 0, 0, 0, 2, 0, 0, 0, 3, 0, 0, 0, 4, 0, 0, 0, 0x30, 1, 0, 0, 0, b'x', 0, 0,
            0x0a, 0x80
        ]
    );
    let mut r = ReadStream::new(&bytes);
    assert_eq!(DiagnosticInfo::decode(&mut r, &l), Ok(info.clone()));
    assert_eq!(r.remaining(), 0);
    assert_eq!(info.clone(), info);
    assert_eq!(info.duplicate(), info);
    // locale comes in front of the text though its bit is the higher one
    let two = DiagnosticInfo {
        symbolic_id: None,
        namespace_uri: None,
        locale: Some(7),
        localized_text: Some(9),
        additional_info: None,
        inner_status_code: None,
        inner_diagnostic_info: None,
    };
    assert_eq!(encoded(&two), vec![0x0c, 7, 0, 0, 0, 9, 0, 0, 0]);
    assert_eq!(DiagnosticInfo::decode(&mut ReadStream::new(&[0x0c, 7, 0, 0, 0, 9, 0, 0, 0]), &l), Ok(two));
    // an inner part that is announced and not there
    assert_eq!(DiagnosticInfo::decode(&mut ReadStream::new(&[0x40]), &l), Err(StatusCode::BadDecodingError));
    // a status code that is not known
    assert_eq!(
        DiagnosticInfo::decode(&mut ReadStream::new(&[0x20, 1, 2, 3, 4]), &l),
        Err(StatusCode::BadDecodingError)
    );
}

#[test]
fn status_codes() {
    assert_eq!(StatusCode::Good.bits(), 0);
    assert_eq!(StatusCode::BadDecodingError.bits(), 0x8007_0000);
    assert_eq!(StatusCode::BadEncodingLimitsExceeded.bits(), 0x8008_0000);
    assert_eq!(StatusCode::BadTimeout.bits(), 0x800A_0000);
    assert_eq!(StatusCode::BadCommunicationError.bits(), 0x8005_0000);
    assert_eq!(StatusCode::BadTcpEndpointUrlInvalid.bits(), 0x8083_0000);
    assert_eq!(StatusCode::BadProtocolVersionUnsupported.bits(), 0x80BE_0000);
    assert_eq!(StatusCode::from_u32(0x8007_0000), Some(StatusCode::BadDecodingError));
    assert_eq!(StatusCode::from_u32(0), Some(StatusCode::Good));
    assert_eq!(StatusCode::from_u32(0x1234), None);
    assert!(StatusCode::Good.is_good());
    assert!(!StatusCode::Good.is_bad());
    assert!(!StatusCode::Good.is_uncertain());
    assert!(StatusCode::BadTimeout.is_bad());
    assert!(!StatusCode::BadTimeout.is_good());
    assert!(StatusCode::UncertainInitialValue.is_uncertain());
    assert!(!StatusCode::UncertainInitialValue.is_good());
    assert!(!StatusCode::UncertainInitialValue.is_bad());
    assert_eq!(encoded(&StatusCode::BadTimeout), vec![0, 0, 0x0a, 0x80]);
    assert_eq!(
        StatusCode::decode(&mut ReadStream::new(&[0, 0, 0x0a, 0x80]), &limits()),
        Ok(StatusCode::BadTimeout)
    );
    assert_eq!(
        StatusCode::decode(&mut ReadStream::new(&[1, 0, 0x0a, 0x80]), &limits()),
        Err(StatusCode::BadDecodingError)
    );
}
