use opcua::byte_string::ByteString;
use opcua::date_time::DateTime;
use opcua::encoding::{BinaryEncoder, DecodingLimits, ReadStream};
use opcua::extension_object::ExtensionObject;
use opcua::guid::Guid;
use opcua::localized_text::LocalizedText;
use opcua::node_id::NodeId;
use opcua::qualified_name::QualifiedName;
use opcua::status_codes::StatusCode;
use opcua::string::UAString;
use opcua::variant::{DataValue, MultiDimensionArray, Variant};

fn limits() -> DecodingLimits {
    DecodingLimits::default()
}

fn round_trip(value: &Variant) -> Vec<u8> {
    let mut stream = vec![0xee];
    let size = value.encode(&mut stream).unwrap();
    assert_eq!(size, stream.len() - 1);
    assert_eq!(value.byte_len(), size);
    stream.push(0xdd);
    let mut input = ReadStream::new(&stream[1..]);
    assert_eq!(Variant::decode(&mut input, &limits()).as_ref(), Ok(value));
    assert_eq!(input.remaining(), 1);
    for n in 0..size {
        assert!(Variant::decode(&mut ReadStream::new(&stream[1..1 + n]), &limits()).is_err());
    }
    stream[1..1 + size].to_vec()
}

fn data_value(value: Variant) -> DataValue {
    DataValue {
        value: Box::new(value),
        status: StatusCode::BadNotReadable,
        source_timestamp: DateTime::ymd(2020, 1, 2),
        source_pico_seconds: 7,
        server_timestamp: DateTime::ymd(2020, 1, 3),
        server_pico_seconds: -1,
    }
}

#[test]
fn scalars_travel_behind_the_number_of_their_type() {
    assert_eq!(round_trip(&Variant::Empty), vec![0]);
    assert_eq!(round_trip(&Variant::Boolean(true)), vec![1, 1]);
    assert_eq!(round_trip(&Variant::SByte(-1)), vec![2, 0xff]);
    assert_eq!(round_trip(&Variant::Byte(200)), vec![3, 200]);
    assert_eq!(round_trip(&Variant::Int16(-2)), vec![4, 0xfe, 0xff]);
    assert_eq!(round_trip(&Variant::UInt16(0x0102)), vec![5, 2, 1]);
    assert_eq!(round_trip(&Variant::Int32(-1)), vec![6, 0xff, 0xff, 0xff, 0xff]);
    assert_eq!(round_trip(&Variant::UInt32(1)), vec![7, 1, 0, 0, 0]);
    assert_eq!(round_trip(&Variant::Int64(1)), vec![8, 1, 0, 0, 0, 0, 0, 0, 0]);
    assert_eq!(round_trip(&Variant::UInt64(u64::MAX)), vec![9, 255, 255, 255, 255, 255, 255, 255, 255]);
    assert_eq!(round_trip(&Variant::Float(1.5f32.to_bits())), vec![10, 0, 0, 0xc0, 0x3f]);
    assert_eq!(
        round_trip(&Variant::Double((-2.0f64).to_bits())),
        vec![11, 0, 0, 0, 0, 0, 0, 0, 0xc0]
    );
    assert_eq!(round_trip(&Variant::String(UAString::from_str("a"))), vec![12, 1, 0, 0, 0, b'a']);
    assert_eq!(round_trip(&Variant::DateTime(DateTime::epoch())), vec![13, 0, 0, 0, 0, 0, 0, 0, 0]);
    let guid = Guid { data1: 1, data2: 2, data3: 3, data4: 4 };
    assert_eq!(
        round_trip(&Variant::Guid(guid)),
        vec![14, 1, 0, 0, 0, 2, 0, 3, 0, 4, 0, 0, 0, 0, 0, 0, 0]
    );
    assert_eq!(round_trip(&Variant::ByteString(ByteString::from_bytes(&[9]))), vec![15, 1, 0, 0, 0, 9]);
    assert_eq!(round_trip(&Variant::XmlElement(UAString::null())), vec![16, 0xff, 0xff, 0xff, 0xff]);
    assert_eq!(round_trip(&Variant::NodeId(Box::new(NodeId::new_numeric(0, 5)))), vec![17, 0, 5]);
    assert_eq!(round_trip(&Variant::StatusCode(StatusCode::BadTimeout)), vec![19, 0, 0, 0x0a, 0x80]);
    assert_eq!(
        round_trip(&Variant::QualifiedName(Box::new(QualifiedName::new(1, "q")))),
        vec![20, 1, 0, 1, 0, 0, 0, b'q']
    );
    assert_eq!(round_trip(&Variant::LocalizedText(Box::new(LocalizedText::null()))), vec![21, 0]);
    assert_eq!(
        round_trip(&Variant::ExtensionObject(Box::new(ExtensionObject::null()))),
        vec![22, 0, 0, 0]
    );
}

#[test]
fn type_ids() {
    assert_eq!(Variant::Empty.type_id(), 0);
    assert_eq!(Variant::Boolean(false).type_id(), 1);
    assert_eq!(Variant::Double(0).type_id(), 11);
    assert_eq!(Variant::StatusCode(StatusCode::Good).type_id(), 19);
    assert_eq!(Variant::DataValue(Box::new(data_value(Variant::Empty))).type_id(), 23);
    assert_eq!(Variant::Array(vec![Variant::Byte(1)]).type_id(), 0);
    assert!(Variant::Empty.is_empty());
    assert!(!Variant::Empty.is_scalar());
    assert!(!Variant::Empty.is_array());
    assert!(Variant::Byte(1).is_scalar());
    assert!(Variant::Array(vec![]).is_array());
    assert!(!Variant::Array(vec![]).is_scalar());
    let multi = Variant::MultiDimensionArray(Box::new(MultiDimensionArray { values: vec![], dimensions: vec![] }));
    assert!(multi.is_array());
}

#[test]
fn arrays() {
    assert_eq!(round_trip(&Variant::Array(vec![])), vec![0x80, 0, 0, 0, 0]);
    assert_eq!(
        round_trip(&Variant::Array(vec![Variant::Int16(1), Variant::Int16(2), Variant::Int16(3)])),
        vec![0x84, 3, 0, 0, 0, 1, 0, 2, 0, 3, 0]
    );
    assert_eq!(
        round_trip(&Variant::Array(vec![
            Variant::String(UAString::from_str("x")),
            Variant::String(UAString::null())
        ])),
        vec![0x8c, 2, 0, 0, 0, 1, 0, 0, 0, b'x', 0xff, 0xff, 0xff, 0xff]
    );
    let multi = Variant::MultiDimensionArray(Box::new(MultiDimensionArray {
        values: vec![Variant::Byte(1), Variant::Byte(2), Variant::Byte(3), Variant::Byte(4)],
        dimensions: vec![2, 2],
    }));
    assert_eq!(
        round_trip(&multi),
        vec![0xc3, 4, 0, 0, 0, 1, 2, 3, 4, 2, 0, 0, 0, 2, 0, 0, 0, 2, 0, 0, 0]
    );
    let no_dimensions = Variant::MultiDimensionArray(Box::new(MultiDimensionArray {
        values: vec![],
        dimensions: vec![],
    }));
    assert_eq!(round_trip(&no_dimensions), vec![0xc0, 0, 0, 0, 0, 0, 0, 0, 0]);
}

#[test]
fn arrays_of_mixed_values_do_not_travel() {
    for values in [
        vec![Variant::Int16(1), Variant::UInt16(2)],
        vec![Variant::Int16(1), Variant::Empty],
        vec![Variant::Empty],
        vec![Variant::Array(vec![])],
        vec![Variant::Byte(1), Variant::Array(vec![Variant::Byte(1)])],
    ] {
        let mut stream = vec![5u8];
        assert_eq!(
            Variant::Array(values.clone()).encode(&mut stream),
            Err(StatusCode::BadEncodingLimitsExceeded)
        );
        assert_eq!(stream[0], 5);
        let multi = Variant::MultiDimensionArray(Box::new(MultiDimensionArray { values, dimensions: vec![1] }));
        assert_eq!(multi.encode(&mut Vec::new()), Err(StatusCode::BadEncodingLimitsExceeded));
    }
}

#[test]
fn data_values() {
    let limits = limits();
    let value = data_value(Variant::Array(vec![Variant::Boolean(true), Variant::Boolean(false)]));
    let mut stream = Vec::new();
    let size = value.encode(&mut stream).unwrap();
    assert_eq!(value.byte_len(), size);
    assert_eq!(stream.len(), size);
    assert_eq!(stream[0], 0x3f);
    assert_eq!(&stream[1..8], &[0x81, 2, 0, 0, 0, 1, 0]);
    assert_eq!(&stream[8..12], &StatusCode::BadNotReadable.bits().to_le_bytes());
    assert_eq!(&stream[20..22], &[7, 0]);
    assert_eq!(&stream[30..32], &[0xff, 0xff]);
    assert_eq!(size, 32);
    let mut input = ReadStream::new(&stream);
    assert_eq!(DataValue::decode(&mut input, &limits), Ok(value.clone()));
    assert_eq!(input.remaining(), 0);
    assert_eq!(value.clone(), value);

    // a data value in a variant, and in a data value
    let nested = Variant::DataValue(Box::new(data_value(Variant::DataValue(Box::new(data_value(Variant::Int32(5)))))));
    let bytes = round_trip(&nested);
    assert_eq!(bytes[0], 23);
    assert_eq!(nested.clone(), nested);
    round_trip(&Variant::Array(vec![
        Variant::DataValue(Box::new(data_value(Variant::Empty))),
        Variant::DataValue(Box::new(data_value(Variant::Byte(1)))),
    ]));
}

#[test]
fn data_value_parts_that_are_not_there() {
    let limits = limits();
    let empty = DataValue {
        value: Box::new(Variant::Empty),
        status: StatusCode::Good,
        source_timestamp: DateTime::epoch(),
        source_pico_seconds: 0,
        server_timestamp: DateTime::epoch(),
        server_pico_seconds: 0,
    };
    assert_eq!(DataValue::decode(&mut ReadStream::new(&[0]), &limits), Ok(empty));
    // the value and the status only
    let bytes = [0x03, 3, 9, 0, 0, 0x0a, 0x80];
    let decoded = DataValue::decode(&mut ReadStream::new(&bytes), &limits).unwrap();
    assert_eq!(*decoded.value, Variant::Byte(9));
    assert_eq!(decoded.status, StatusCode::BadTimeout);
    assert_eq!(decoded.source_timestamp, DateTime::epoch());
    // the picoseconds of the source travel in front of the time stamp of the server
    let bytes = [0x18, 1, 0, 5, 0, 0, 0, 0, 0, 0, 0];
    let decoded = DataValue::decode(&mut ReadStream::new(&bytes), &limits).unwrap();
    assert_eq!(decoded.server_timestamp.ticks(), 5);
    assert_eq!(decoded.source_pico_seconds, 1);
    let bytes = [0x1c, 9, 0, 0, 0, 0, 0, 0, 0, 1, 0, 5, 0, 0, 0, 0, 0, 0, 0];
    let decoded = DataValue::decode(&mut ReadStream::new(&bytes), &limits).unwrap();
    assert_eq!(decoded.source_timestamp.ticks(), 9);
    assert_eq!(decoded.source_pico_seconds, 1);
    assert_eq!(decoded.server_timestamp.ticks(), 5);
    assert_eq!(DataValue::decode(&mut ReadStream::new(&[0x02, 1]), &limits), Err(StatusCode::BadDecodingError));
}

#[test]
fn variant_decoding_errors() {
    let l = limits();
    let decode = |bytes: &[u8], l: &DecodingLimits| Variant::decode(&mut ReadStream::new(bytes), l);
    // types that are not read
    for type_id in [18u8, 24, 25, 26, 63] {
        assert_eq!(decode(&[type_id, 0, 0, 0, 0, 0, 0, 0, 0], &l), Err(StatusCode::BadDecodingError));
    }
    // dimensions without an array
    assert_eq!(decode(&[0x43, 1], &l), Err(StatusCode::BadDecodingError));
    // an array with a negative number of values
    assert_eq!(decode(&[0x83, 0xff, 0xff, 0xff, 0xff], &l), Err(StatusCode::BadDecodingError));
    // an array of no type that holds values
    assert_eq!(decode(&[0x80, 1, 0, 0, 0, 0], &l), Err(StatusCode::BadDecodingError));
    // more values than the limit allows
    let mut small = l;
    small.max_array_length = 1;
    assert_eq!(decode(&[0x83, 2, 0, 0, 0, 1, 2], &small), Err(StatusCode::BadEncodingLimitsExceeded));
    assert_eq!(decode(&[0x83, 1, 0, 0, 0, 1], &small), Ok(Variant::Array(vec![Variant::Byte(1)])));
    // more dimensions than the limit allows
    assert_eq!(
        decode(&[0xc3, 1, 0, 0, 0, 1, 2, 0, 0, 0, 1, 0, 0, 0, 1, 0, 0, 0], &small),
        Err(StatusCode::BadEncodingLimitsExceeded)
    );
    // dimensions that are announced and absent
    assert_eq!(decode(&[0xc3, 1, 0, 0, 0, 1, 0xff, 0xff, 0xff, 0xff], &l), Err(StatusCode::BadDecodingError));
    // the largest number of values is refused by the limit
    assert_eq!(decode(&[0x83, 0xff, 0xff, 0xff, 0x7f], &l), Err(StatusCode::BadEncodingLimitsExceeded));
    // a value in the array that is malformed
    assert_eq!(decode(&[0x93, 1, 0, 0, 0, 1, 2, 3, 4], &l), Err(StatusCode::BadDecodingError));
    assert_eq!(decode(&[], &l), Err(StatusCode::BadDecodingError));
}

#[test]
fn the_empty_array_of_a_type_is_read_as_the_empty_array() {
    assert_eq!(
        Variant::decode(&mut ReadStream::new(&[0x86, 0, 0, 0, 0]), &limits()),
        Ok(Variant::Array(vec![]))
    );
}

#[test]
fn a_copy_of_a_value_holds_the_same() {
    let grid = MultiDimensionArray {
        values: vec![
            Variant::String(UAString::from_str("a")),
            Variant::String(UAString::null()),
            Variant::String(UAString::from_str("c")),
            Variant::String(UAString::from_str("d")),
        ],
        dimensions: vec![2, 2],
    };
    assert_eq!(grid.clone(), grid);
    let nested = Variant::Array(vec![
        Variant::DataValue(Box::new(DataValue::new_at(
            Variant::MultiDimensionArray(Box::new(grid.clone())),
            &DateTime::ymd(2020, 1, 1),
        ))),
        Variant::DataValue(Box::new(DataValue::value_only(Variant::Int16(-3)))),
    ]);
    assert_eq!(nested.clone(), nested);
    let value = DataValue::new_at(nested.clone(), &DateTime::ymd(2021, 1, 1));
    assert_eq!(value.clone(), value);
    assert_ne!(value.clone(), DataValue::value_only(Variant::Empty));
}
