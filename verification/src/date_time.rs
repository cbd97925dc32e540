//! Dates and times. A time stamp travels as the number of 100 nanosecond
//! ticks since the start of the year 1601, UTC.

use vstd::prelude::*;
use chrono::{Datelike, NaiveDate, Utc};
use crate::encoding::{
    BinaryEncoder, DecodingLimits, EncodingResult, ReadStream, lemma_i64_round_trip, read_i64,
    write_i64,
};
use crate::status_codes::StatusCode;

verus! {

pub const NANOS_PER_TICK: u32 = 100;

pub const TICKS_PER_SECOND: i64 = 10_000_000;

pub const SECONDS_PER_DAY: i64 = 86_400;

pub const TICKS_PER_DAY: i64 = 864_000_000_000;

/// The number of 1 January 1601 among the days of the proleptic Gregorian
/// calendar, where 1 January of the year 1 is day 1.
pub const EPOCH_DAY_NUMBER: i64 = 584_389;

/// Seconds from the start of 1601 to the start of 1970.
pub const UNIX_EPOCH_SECONDS: i64 = 11_644_473_600;

/// The ticks of 23:59:59 on 31 December 9999, the last time stamp that travels
/// as itself.
pub const ENDTIMES_TICKS: i64 = 2_650_467_743_990_000_000;

pub open spec fn is_leap_year(year: int) -> bool {
    year % 4 == 0 && (year % 100 != 0 || year % 400 == 0)
}

pub open spec fn days_in_month(year: int, month: int) -> int {
    if month == 2 {
        if is_leap_year(year) {
            29
        } else {
            28
        }
    } else if month == 4 || month == 6 || month == 9 || month == 11 {
        30
    } else {
        31
    }
}

/// The proleptic Gregorian calendar has a day `day` of the month `month` of
/// the year `year`.
pub open spec fn is_calendar_date(year: int, month: int, day: int) -> bool {
    1 <= month <= 12 && 1 <= day <= days_in_month(year, month)
}

/// Days from 1 January of the year 1 up to, and without, 1 January of `year`.
pub open spec fn days_before_year(year: int) -> int {
    let y = year - 1;
    365 * y + y / 4 - y / 100 + y / 400
}

/// Days of `year` that lie before the first of `month`.
pub open spec fn days_before_month(year: int, month: int) -> int {
    let leap: int = if month > 2 && is_leap_year(year) {
        1
    } else {
        0
    };
    leap + if month <= 1 {
        0int
    } else if month == 2 {
        31
    } else if month == 3 {
        59
    } else if month == 4 {
        90
    } else if month == 5 {
        120
    } else if month == 6 {
        151
    } else if month == 7 {
        181
    } else if month == 8 {
        212
    } else if month == 9 {
        243
    } else if month == 10 {
        273
    } else if month == 11 {
        304
    } else {
        334
    }
}

/// The number of a day in the proleptic Gregorian calendar, where 1 January of
/// the year 1 is day 1.
pub open spec fn day_number(year: int, month: int, day: int) -> int {
    days_before_year(year) + days_before_month(year, month) + day
}

/// Whole ticks from the start of 1601 to the given time of the given day.
pub open spec fn ticks_of(
    year: int,
    month: int,
    day: int,
    hour: int,
    min: int,
    sec: int,
    nanos: int,
) -> int {
    (day_number(year, month, day) - EPOCH_DAY_NUMBER) * TICKS_PER_DAY + ((hour * 60 + min) * 60
        + sec) * TICKS_PER_SECOND + nanos / (NANOS_PER_TICK as int)
}

/// A number of ticks as it travels: 0 for a time before 1601, `i64::MAX` for
/// one after the last second of 9999.
pub open spec fn checked(ticks: int) -> i64 {
    if ticks < 0 {
        0
    } else if ticks > ENDTIMES_TICKS {
        i64::MAX
    } else {
        ticks as i64
    }
}

/// A number of ticks kept within what an `i64` holds.
pub open spec fn clamped(ticks: int) -> i64 {
    if ticks < i64::MIN {
        i64::MIN
    } else if ticks > i64::MAX {
        i64::MAX
    } else {
        ticks as i64
    }
}

/// chrono's `NaiveDate::from_ymd_opt` followed by `Datelike::num_days_from_ce`:
/// the number of the day in the proleptic Gregorian calendar, counted from
/// 1 January of the year 1 as day 1, or nothing where the calendar has no
/// such day. Every year that a `u16` holds is within chrono's range.
#[verifier::external_body]
fn day_number_of(year: u16, month: u16, day: u16) -> (result: Option<i32>)
    ensures
        result is Some <==> is_calendar_date(year as int, month as int, day as int),
        result matches Some(n) ==> n == day_number(year as int, month as int, day as int),
{
    match NaiveDate::from_ymd_opt(year as i32, month as u32, day as u32) {
        Some(date) => Some(date.num_days_from_ce()),
        None => None,
    }
}

/// chrono's `NaiveDate::from_num_days_from_ce_opt`, read through `year`,
/// `month` and `day` of `Datelike`: the calendar date with the given day
/// number. chrono has the date for every day number of the years 1 to 262142,
/// of which the contract claims those up to 12 000 000.
#[verifier::external_body]
fn calendar_date_of(number: i32) -> (result: Option<(i32, u32, u32)>)
    ensures
        1 <= number <= 12_000_000 ==> result is Some,
        result matches Some((year, month, day)) ==> is_calendar_date(
            year as int,
            month as int,
            day as int,
        ) && day_number(year as int, month as int, day as int) == number,
{
    match NaiveDate::from_num_days_from_ce_opt(number) {
        Some(date) => Some((date.year(), date.month(), date.day())),
        None => None,
    }
}

/// chrono's `Utc::now`, as the seconds since the start of 1970 and the
/// nanoseconds within the second. Nothing is claimed of what the clock says.
#[verifier::external_body]
fn utc_now() -> (result: (i64, u32)) {
    let now = Utc::now();
    (now.timestamp(), now.timestamp_subsec_nanos())
}

/// A date and a time of day, UTC. The date is one that the calendar has and
/// the time of day is within its ranges.
#[derive(Clone, Copy, Debug, PartialEq, Eq)]
pub struct DateTime {
    year: u16,
    month: u16,
    day: u16,
    hour: u16,
    min: u16,
    sec: u16,
    nano_sec: u32,
}

/// The ranges of the fields of a time of day.
pub open spec fn is_time_of_day(hour: int, min: int, sec: int, nanos: int) -> bool {
    0 <= hour <= 23 && 0 <= min <= 59 && 0 <= sec <= 59 && 0 <= nanos < 1_000_000_000
}

impl View for DateTime {
    type V = i64;

    /// A time stamp stands for the ticks that travel for it.
    open spec fn view(&self) -> i64 {
        checked(self.exact_ticks())
    }
}

impl DateTime {
    #[verifier::type_invariant]
    closed spec fn inv(self) -> bool {
        &&& is_calendar_date(self.year as int, self.month as int, self.day as int)
        &&& is_time_of_day(self.hour as int, self.min as int, self.sec as int, self.nano_sec as int)
    }

    pub closed spec fn spec_year(&self) -> u16 {
        self.year
    }

    pub closed spec fn spec_month(&self) -> u16 {
        self.month
    }

    pub closed spec fn spec_day(&self) -> u16 {
        self.day
    }

    pub closed spec fn spec_hour(&self) -> u16 {
        self.hour
    }

    pub closed spec fn spec_min(&self) -> u16 {
        self.min
    }

    pub closed spec fn spec_sec(&self) -> u16 {
        self.sec
    }

    pub closed spec fn spec_nano_sec(&self) -> u32 {
        self.nano_sec
    }

    /// Whole ticks from the start of 1601 to this time stamp; negative before
    /// 1601.
    pub open spec fn exact_ticks(&self) -> int {
        ticks_of(
            self.spec_year() as int,
            self.spec_month() as int,
            self.spec_day() as int,
            self.spec_hour() as int,
            self.spec_min() as int,
            self.spec_sec() as int,
            self.spec_nano_sec() as int,
        )
    }

    /// The fields name a day of the calendar and a time of that day.
    pub open spec fn is_valid(&self) -> bool {
        &&& is_calendar_date(
            self.spec_year() as int,
            self.spec_month() as int,
            self.spec_day() as int,
        )
        &&& is_time_of_day(
            self.spec_hour() as int,
            self.spec_min() as int,
            self.spec_sec() as int,
            self.spec_nano_sec() as int,
        )
    }

    /// Year in full, such as 2016.
    #[verifier::when_used_as_spec(spec_year)]
    pub fn year(&self) -> (r: u16)
        ensures
            r == self.spec_year(),
    {
        self.year
    }

    /// Month of the year, 1 to 12.
    #[verifier::when_used_as_spec(spec_month)]
    pub fn month(&self) -> (r: u16)
        ensures
            r == self.spec_month(),
            1 <= r <= 12,
    {
        proof {
            use_type_invariant(self);
        }
        self.month
    }

    /// Day of the month, 1 to 31.
    #[verifier::when_used_as_spec(spec_day)]
    pub fn day(&self) -> (r: u16)
        ensures
            r == self.spec_day(),
            1 <= r <= 31,
    {
        proof {
            use_type_invariant(self);
        }
        self.day
    }

    /// Hour of the day, 0 to 23.
    #[verifier::when_used_as_spec(spec_hour)]
    pub fn hour(&self) -> (r: u16)
        ensures
            r == self.spec_hour(),
            r <= 23,
    {
        proof {
            use_type_invariant(self);
        }
        self.hour
    }

    /// Minute of the hour, 0 to 59.
    #[verifier::when_used_as_spec(spec_min)]
    pub fn min(&self) -> (r: u16)
        ensures
            r == self.spec_min(),
            r <= 59,
    {
        proof {
            use_type_invariant(self);
        }
        self.min
    }

    /// Second of the minute, 0 to 59.
    #[verifier::when_used_as_spec(spec_sec)]
    pub fn sec(&self) -> (r: u16)
        ensures
            r == self.spec_sec(),
            r <= 59,
    {
        proof {
            use_type_invariant(self);
        }
        self.sec
    }

    /// Nanoseconds within the second.
    #[verifier::when_used_as_spec(spec_nano_sec)]
    pub fn nano_sec(&self) -> (r: u32)
        ensures
            r == self.spec_nano_sec(),
            r < 1_000_000_000,
    {
        proof {
            use_type_invariant(self);
        }
        self.nano_sec
    }

    /// Tests whether the calendar has the given day and the day the given time.
    pub fn is_valid_ymd_hms_nano(
        year: u16,
        month: u16,
        day: u16,
        hour: u16,
        min: u16,
        sec: u16,
        nanos: u32,
    ) -> (r: bool)
        ensures
            r == (is_calendar_date(year as int, month as int, day as int) && is_time_of_day(
                hour as int,
                min as int,
                sec as int,
                nanos as int,
            )),
    {
        hour <= 23 && min <= 59 && sec <= 59 && nanos < 1_000_000_000 && day_number_of(
            year,
            month,
            day,
        ).is_some()
    }

    /// The time stamp of the given day at midnight.
    pub fn ymd(year: u16, month: u16, day: u16) -> (r: DateTime)
        requires
            is_calendar_date(year as int, month as int, day as int),
        ensures
            r.exact_ticks() == ticks_of(year as int, month as int, day as int, 0, 0, 0, 0),
    {
        DateTime::ymd_hms_nano(year, month, day, 0, 0, 0, 0)
    }

    /// The time stamp of the given day at the given second.
    pub fn ymd_hms(year: u16, month: u16, day: u16, hour: u16, min: u16, sec: u16) -> (r:
        DateTime)
        requires
            is_calendar_date(year as int, month as int, day as int),
            is_time_of_day(hour as int, min as int, sec as int, 0),
        ensures
            r.exact_ticks() == ticks_of(
                year as int,
                month as int,
                day as int,
                hour as int,
                min as int,
                sec as int,
                0,
            ),
    {
        DateTime::ymd_hms_nano(year, month, day, hour, min, sec, 0)
    }

    /// The time stamp of the given day at the given nanosecond.
    pub fn ymd_hms_nano(
        year: u16,
        month: u16,
        day: u16,
        hour: u16,
        min: u16,
        sec: u16,
        nanos: u32,
    ) -> (r: DateTime)
        requires
            is_calendar_date(year as int, month as int, day as int),
            is_time_of_day(hour as int, min as int, sec as int, nanos as int),
        ensures
            r.spec_year() == year,
            r.spec_month() == month,
            r.spec_day() == day,
            r.spec_hour() == hour,
            r.spec_min() == min,
            r.spec_sec() == sec,
            r.spec_nano_sec() == nanos,
    {
        DateTime { year, month, day, hour, min, sec, nano_sec: nanos }
    }

    /// The time stamp of the given day at the given nanosecond, or nothing
    /// where the calendar has no such day or the day no such time.
    pub fn try_ymd_hms_nano(
        year: u16,
        month: u16,
        day: u16,
        hour: u16,
        min: u16,
        sec: u16,
        nanos: u32,
    ) -> (r: Option<DateTime>)
        ensures
            r is Some <==> is_calendar_date(year as int, month as int, day as int)
                && is_time_of_day(hour as int, min as int, sec as int, nanos as int),
            r matches Some(t) ==> t.exact_ticks() == ticks_of(
                year as int,
                month as int,
                day as int,
                hour as int,
                min as int,
                sec as int,
                nanos as int,
            ),
    {
        if DateTime::is_valid_ymd_hms_nano(year, month, day, hour, min, sec, nanos) {
            Some(DateTime::ymd_hms_nano(year, month, day, hour, min, sec, nanos))
        } else {
            None
        }
    }

    /// Midnight of 1 January 1601, from which ticks are counted.
    pub fn epoch() -> (r: DateTime)
        ensures
            r.exact_ticks() == 0,
    {
        DateTime::ymd_hms_nano(1601, 1, 1, 0, 0, 0, 0)
    }

    /// The last second of the year 9999.
    pub fn endtimes() -> (r: DateTime)
        ensures
            r.exact_ticks() == ENDTIMES_TICKS,
    {
        DateTime::ymd_hms_nano(9999, 12, 31, 23, 59, 59, 0)
    }

    /// The time in ticks of 100 nanoseconds since the start of 1601, kept
    /// within what an `i64` holds.
    pub fn ticks(&self) -> (r: i64)
        ensures
            r == clamped(self.exact_ticks()),
    {
        proof {
            use_type_invariant(self);
        }
        let number: i128 = match day_number_of(self.year, self.month, self.day) {
            Some(n) => n as i128,
            None => 0,
        };
        let seconds: i128 = ((self.hour as i128) * 60 + self.min as i128) * 60 + self.sec as i128;
        let ticks: i128 = (number - 584_389) * 864_000_000_000 + seconds * 10_000_000 + (
        self.nano_sec / 100) as i128;
        if ticks < i64::MIN as i128 {
            i64::MIN
        } else if ticks > i64::MAX as i128 {
            i64::MAX
        } else {
            ticks as i64
        }
    }

    /// The time in ticks as it travels: 0 for a time before 1601 and
    /// `i64::MAX` for one after the last second of 9999.
    pub fn checked_ticks(&self) -> (r: i64)
        ensures
            r == checked(self.exact_ticks()),
            r == self@,
    {
        let ticks = self.ticks();
        if ticks < 0 {
            return 0;
        }
        if ticks > ENDTIMES_TICKS {
            return i64::MAX;
        }
        ticks
    }

    /// The time stamp that lies the given number of ticks behind the start of
    /// 1601. A negative number gives the start of 1601.
    pub fn from_ticks(ticks: i64) -> (r: DateTime)
        ensures
            r.exact_ticks() == (if ticks < 0 { 0 } else { ticks as int }),
    {
        let ticks: i64 = if ticks < 0 { 0 } else { ticks };
        let days: i64 = ticks / TICKS_PER_DAY;
        let in_day: i64 = ticks % TICKS_PER_DAY;
        let seconds: i64 = in_day / TICKS_PER_SECOND;
        let in_second: i64 = in_day % TICKS_PER_SECOND;
        let number: i32 = (days + EPOCH_DAY_NUMBER) as i32;
        match calendar_date_of(number) {
            Some((year, month, day)) => {
                assert(1 <= year <= 65535) by {
                    let y = year as int - 1;
                    assert(days_before_year(year as int) + days_before_month(
                        year as int,
                        month as int,
                    ) + day == number);
                }
                DateTime {
                    year: year as u16,
                    month: month as u16,
                    day: day as u16,
                    hour: (seconds / 3600) as u16,
                    min: ((seconds / 60) % 60) as u16,
                    sec: (seconds % 60) as u16,
                    nano_sec: (in_second as u32) * NANOS_PER_TICK,
                }
            },
            None => DateTime::epoch(),
        }
    }

    /// The time stamp that lies the given seconds and nanoseconds behind the
    /// start of 1970. A time before 1601 gives the start of 1601; one that no
    /// `i64` of ticks holds gives the last that one holds.
    pub fn from_unix_time(secs: i64, nanos: u32) -> (r: DateTime)
        ensures
            r.exact_ticks() == unix_ticks(secs, nanos),
    {
        let ticks: i128 = (secs as i128 + 11_644_473_600) * 10_000_000 + (nanos / 100) as i128;
        if ticks < 0 {
            DateTime::from_ticks(0)
        } else if ticks > i64::MAX as i128 {
            DateTime::from_ticks(i64::MAX)
        } else {
            DateTime::from_ticks(ticks as i64)
        }
    }

    /// The time stamp of the present moment, to the tick.
    pub fn now() -> (r: DateTime)
        ensures
            0 <= r.exact_ticks() <= i64::MAX,
    {
        let (secs, nanos) = utc_now();
        DateTime::from_unix_time(secs, nanos)
    }
}

/// The ticks of a Unix time, kept within 0 and what an `i64` holds.
pub open spec fn unix_ticks(secs: i64, nanos: u32) -> int {
    let ticks = (secs + UNIX_EPOCH_SECONDS) * TICKS_PER_SECOND + nanos / NANOS_PER_TICK;
    if ticks < 0 {
        0
    } else if ticks > i64::MAX {
        i64::MAX as int
    } else {
        ticks
    }
}

impl BinaryEncoder for DateTime {
    open spec fn encoding(v: i64) -> Seq<u8> {
        i64::encoding(v)
    }

    /// The ticks that travel are those that `checked` leaves as they are.
    open spec fn encodable(v: i64) -> bool {
        checked(v as int) == v
    }

    open spec fn within(v: i64, limits: DecodingLimits) -> bool {
        true
    }

    open spec fn decoding(s: Seq<u8>, limits: DecodingLimits) -> Result<(i64, Seq<u8>), StatusCode> {
        match i64::decoding(s, limits) {
            Err(e) => Err(e),
            Ok((ticks, s)) => Ok((checked(ticks as int), s)),
        }
    }

    proof fn lemma_round_trip(v: i64, rest: Seq<u8>, limits: DecodingLimits) {
        lemma_i64_round_trip(v, rest);
    }

    fn byte_len(&self) -> (r: usize) {
        proof {
            lemma_i64_round_trip(self@, Seq::empty());
        }
        8
    }

    fn encode(&self, stream: &mut Vec<u8>) -> (r: EncodingResult<usize>) {
        proof {
            lemma_i64_round_trip(self@, Seq::empty());
        }
        write_i64(stream, self.checked_ticks())
    }

    fn decode(stream: &mut ReadStream, limits: &DecodingLimits) -> (r: EncodingResult<Self>) {
        let ticks = read_i64(stream)?;
        Ok(DateTime::from_ticks(ticks))
    }
}

} // verus!
