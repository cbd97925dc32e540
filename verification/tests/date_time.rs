use opcua::date_time::DateTime;
use opcua::encoding::{BinaryEncoder, DecodingLimits, ReadStream};

#[test]
fn test_epoch() {
    let epoch = DateTime::ymd_hms_nano(1601, 1, 1, 0, 0, 0, 0);
    assert_eq!(epoch.ticks(), 0);
    assert_eq!(epoch.checked_ticks(), 0);
}

#[test]
fn test_before_epoch() {
    let epoch = DateTime::ymd_hms_nano(1600, 12, 31, 23, 59, 59, 999_999);
    assert_eq!(epoch.checked_ticks(), 0);
}

#[test]
fn test_epoch_plus_1tick() {
    let epoch = DateTime::ymd_hms_nano(1601, 1, 1, 0, 0, 0, 100);
    assert_eq!(epoch.ticks(), 1);
}

#[test]
fn test_endtimes() {
    let endtimes = DateTime::ymd_hms_nano(9999, 12, 31, 23, 59, 59, 999_999);
    assert_eq!(endtimes.checked_ticks(), i64::max_value());

    let endtimes = DateTime::ymd_hms_nano(10000, 1, 1, 0, 0, 0, 0);
    assert_eq!(endtimes.checked_ticks(), i64::max_value());
}

#[test]
fn test_time() {
    let now = DateTime::now();
    assert!(now.year() > 2000 && now.year() < 2050);
    assert!(now.month() >= 1 && now.month() <= 12);
}

#[test]
fn ticks_of_known_dates() {
    assert_eq!(DateTime::ymd(2017, 1, 1).ticks(), 131_277_024_000_000_000);
    assert_eq!(DateTime::ymd(1970, 1, 1).ticks(), 116_444_736_000_000_000);
    assert_eq!(
        DateTime::ymd_hms_nano(2000, 2, 29, 12, 30, 45, 123_456_700).ticks(),
        125_963_010_451_234_567
    );
    assert_eq!(DateTime::ymd_hms(1600, 12, 31, 23, 59, 59).ticks(), -10_000_000);
    assert_eq!(DateTime::endtimes().ticks(), 2_650_467_743_990_000_000);
    assert_eq!(DateTime::endtimes().checked_ticks(), 2_650_467_743_990_000_000);
    assert_eq!(DateTime::epoch().ticks(), 0);
}

#[test]
fn ticks_stay_within_i64() {
    // The year 65535 lies beyond what an i64 of ticks holds.
    let far = DateTime::ymd(65535, 12, 31);
    assert_eq!(far.ticks(), i64::MAX);
    assert_eq!(far.checked_ticks(), i64::MAX);
    let early = DateTime::ymd(0, 1, 1);
    assert_eq!(early.ticks(), -505_227_456_000_000_000);
    assert_eq!(early.checked_ticks(), 0);
}

#[test]
fn from_ticks_gives_the_calendar_date() {
    let t = DateTime::from_ticks(131_279_270_199_860_000);
    assert_eq!(
        (t.year(), t.month(), t.day(), t.hour(), t.min(), t.sec(), t.nano_sec()),
        (2017, 1, 3, 14, 23, 39, 986_000_000)
    );
    assert_eq!(t.ticks(), 131_279_270_199_860_000);

    let leap = DateTime::from_ticks(125_963_010_451_234_567);
    assert_eq!(
        (leap.year(), leap.month(), leap.day(), leap.hour(), leap.min(), leap.sec()),
        (2000, 2, 29, 12, 30, 45)
    );
    assert_eq!(leap.nano_sec(), 123_456_700);

    let zero = DateTime::from_ticks(0);
    assert_eq!(zero, DateTime::epoch());
}

#[test]
fn from_ticks_of_a_negative_number_is_the_epoch() {
    assert_eq!(DateTime::from_ticks(-1), DateTime::epoch());
    assert_eq!(DateTime::from_ticks(i64::MIN), DateTime::epoch());
}

#[test]
fn from_ticks_of_the_largest_number() {
    let t = DateTime::from_ticks(i64::MAX);
    assert_eq!(t.year(), 30828);
    assert_eq!(t.ticks(), i64::MAX);
    assert_eq!(t.checked_ticks(), i64::MAX);
}

#[test]
fn from_unix_time_counts_from_1970() {
    let t = DateTime::from_unix_time(0, 0);
    assert_eq!((t.year(), t.month(), t.day()), (1970, 1, 1));
    assert_eq!(t.ticks(), 116_444_736_000_000_000);
    let t = DateTime::from_unix_time(1_483_453_419, 986_000_099);
    assert_eq!(t.ticks(), 131_279_270_199_860_000);
    // before 1601
    assert_eq!(DateTime::from_unix_time(-11_644_473_601, 0), DateTime::epoch());
    assert_eq!(DateTime::from_unix_time(i64::MAX, 0).ticks(), i64::MAX);
    assert_eq!(DateTime::from_unix_time(i64::MIN, 0).ticks(), 0);
}

#[test]
fn validity_of_dates() {
    assert!(DateTime::is_valid_ymd_hms_nano(2000, 2, 29, 0, 0, 0, 0));
    assert!(!DateTime::is_valid_ymd_hms_nano(1900, 2, 29, 0, 0, 0, 0));
    assert!(!DateTime::is_valid_ymd_hms_nano(2001, 2, 29, 0, 0, 0, 0));
    assert!(DateTime::is_valid_ymd_hms_nano(2004, 2, 29, 23, 59, 59, 999_999_999));
    assert!(!DateTime::is_valid_ymd_hms_nano(2004, 4, 31, 0, 0, 0, 0));
    assert!(!DateTime::is_valid_ymd_hms_nano(2004, 0, 1, 0, 0, 0, 0));
    assert!(!DateTime::is_valid_ymd_hms_nano(2004, 13, 1, 0, 0, 0, 0));
    assert!(!DateTime::is_valid_ymd_hms_nano(2004, 1, 0, 0, 0, 0, 0));
    assert!(!DateTime::is_valid_ymd_hms_nano(2004, 1, 1, 24, 0, 0, 0));
    assert!(!DateTime::is_valid_ymd_hms_nano(2004, 1, 1, 0, 60, 0, 0));
    assert!(!DateTime::is_valid_ymd_hms_nano(2004, 1, 1, 0, 0, 60, 0));
    assert!(!DateTime::is_valid_ymd_hms_nano(2004, 1, 1, 0, 0, 0, 1_000_000_000));
}

#[test]
fn date_time_travels_as_its_checked_ticks() {
    let limits = DecodingLimits::default();
    let t = DateTime::ymd_hms_nano(2017, 1, 3, 14, 23, 39, 986_000_000);
    assert_eq!(t.byte_len(), 8);
    let mut stream = Vec::new();
    assert_eq!(t.encode(&mut stream), Ok(8));
    assert_eq!(stream, vec![0x20, 0x9b, 0xa2, 0xfa, 0xcc, 0x65, 0xd2, 0x01]);
    let mut input = ReadStream::new(&stream);
    assert_eq!(DateTime::decode(&mut input, &limits), Ok(t));
    assert_eq!(input.remaining(), 0);

    // a time before 1601 travels as 0 and comes back as the epoch
    let mut stream = Vec::new();
    assert_eq!(DateTime::ymd(1500, 6, 1).encode(&mut stream), Ok(8));
    assert_eq!(stream, vec![0u8; 8]);
    let mut input = ReadStream::new(&stream);
    assert_eq!(DateTime::decode(&mut input, &limits), Ok(DateTime::epoch()));

    // a time after 9999 travels as the largest number
    let mut stream = Vec::new();
    assert_eq!(DateTime::ymd(10000, 1, 1).encode(&mut stream), Ok(8));
    assert_eq!(stream, vec![0xff, 0xff, 0xff, 0xff, 0xff, 0xff, 0xff, 0x7f]);

    let short = [1u8, 2, 3];
    let mut input = ReadStream::new(&short);
    assert_eq!(
        DateTime::decode(&mut input, &limits),
        Err(opcua::status_codes::StatusCode::BadDecodingError)
    );
}
