//! What every supported device shares: version numbers, where the band is
//! worn, and the band's compact calendar time.

use vstd::prelude::*;
use chrono::TimeZone;
use crate::error::Error;

pub mod bluetooth;
pub mod capabilities;
pub mod generic;
pub mod miband;

verus! {

/// A version number of four bytes, least significant first.
#[derive(Debug, Clone, Copy, PartialEq, Eq)]
pub struct Version(pub [u8; 4]);

/// `String::push` appends the character to the text, as std documents.
pub assume_specification[ String::push ](text: &mut String, ch: char)
    ensures
        final(text)@ == old(text)@.push(ch),
;

/// The character of a decimal digit.
pub open spec fn spec_digit(d: u8) -> char
    recommends
        d < 10,
{
    (0x30 + d) as char
}

/// A byte in decimal, without leading zeros.
pub open spec fn spec_decimal(n: u8) -> Seq<char> {
    if n < 10 {
        seq![spec_digit(n)]
    } else if n < 100 {
        seq![spec_digit(n / 10), spec_digit(n % 10)]
    } else {
        seq![spec_digit(n / 100), spec_digit(n / 10 % 10), spec_digit(n % 10)]
    }
}

fn digit(d: u8) -> (c: char)
    requires
        d < 10,
    ensures
        c == spec_digit(d),
{
    (0x30 + d) as char
}

/// Writes a byte in decimal behind a text.
fn push_decimal(text: &mut String, n: u8)
    ensures
        final(text)@ == old(text)@ + spec_decimal(n),
{
    if n >= 100 {
        text.push(digit(n / 100));
    }
    if n >= 10 {
        text.push(digit(n / 10 % 10));
    }
    text.push(digit(n % 10));
    assert(text@ =~= old(text)@ + spec_decimal(n));
}

impl Version {
    /// The version as it is shown: its four bytes in decimal, the most
    /// significant first, with dots between them.
    pub open spec fn spec_to_string(&self) -> Seq<char> {
        spec_decimal(self.0[3]) + seq!['.'] + spec_decimal(self.0[2]) + seq!['.'] + spec_decimal(
            self.0[1],
        ) + seq!['.'] + spec_decimal(self.0[0])
    }

    /// Shows the version.
    pub fn to_string(&self) -> (text: String)
        ensures
            text@ == self.spec_to_string(),
    {
        let mut text = String::new();
        push_decimal(&mut text, self.0[3]);
        text.push('.');
        push_decimal(&mut text, self.0[2]);
        text.push('.');
        push_decimal(&mut text, self.0[1]);
        text.push('.');
        push_decimal(&mut text, self.0[0]);
        assert(text@ =~= self.spec_to_string());
        text
    }
}

/// Where the band is worn.
#[derive(Debug, Clone, Copy, PartialEq, Eq)]
pub enum WearLocation {
    Left,
    Right,
    Neck,
    Pocket,
}

/// What a device answers when asked for something it cannot do.
#[derive(Debug, Clone, Copy, PartialEq, Eq)]
pub struct NotSupportedErr;

/// A calendar date and time of day in UTC, to the second.
#[derive(Debug, Clone, Copy, PartialEq, Eq)]
pub struct DateTime {
    pub year: i32,
    pub month: u8,
    pub day: u8,
    pub hour: u8,
    pub minute: u8,
    pub second: u8,
}

/// Whether `year` is a leap year of the proleptic Gregorian calendar.
pub open spec fn is_leap_year(year: int) -> bool {
    year % 4 == 0 && (year % 100 != 0 || year % 400 == 0)
}

/// The number of days of `month` in `year`; 0 where there is no such month.
pub open spec fn days_in_month(year: int, month: int) -> int {
    if month == 4 || month == 6 || month == 9 || month == 11 {
        30
    } else if month == 2 {
        if is_leap_year(year) { 29 } else { 28 }
    } else if 1 <= month <= 12 {
        31
    } else {
        0
    }
}

/// Whether the six numbers name a second that exists: a day of the
/// proleptic Gregorian calendar in a year that can be represented, and a
/// time of day without a leap second.
pub open spec fn is_civil(year: int, month: int, day: int, hour: int, minute: int, second: int) -> bool {
    &&& -262143 <= year <= 262142
    &&& 1 <= month <= 12
    &&& 1 <= day <= days_in_month(year, month)
    &&& 0 <= hour < 24
    &&& 0 <= minute < 60
    &&& 0 <= second < 60
}

/// Asks `chrono::TimeZone::with_ymd_and_hms`, on `Utc`, whether the six
/// numbers name a date and time. The contract repeats what chrono documents:
/// the call yields a single time exactly for a day that exists in the
/// proleptic Gregorian calendar, within the years chrono can hold, and an
/// hour, minute and second below 24, 60 and 60.
#[verifier::external_body]
fn utc_exists(year: i32, month: u32, day: u32, hour: u32, minute: u32, second: u32) -> (ok: bool)
    ensures
        ok == is_civil(year as int, month as int, day as int, hour as int, minute as int, second as int),
{
    chrono::Utc.with_ymd_and_hms(year, month, day, hour, minute, second).single().is_some()
}

impl DateTime {
    /// Whether the fields name a second that exists.
    pub open spec fn is_valid(&self) -> bool {
        is_civil(
            self.year as int,
            self.month as int,
            self.day as int,
            self.hour as int,
            self.minute as int,
            self.second as int,
        )
    }

    /// Whether the band can hold the year: it counts from 2000 in one byte.
    pub open spec fn fits_band(&self) -> bool {
        2000 <= self.year <= 2255
    }

    /// The date and time with these fields, if there is one.
    pub fn new(year: i32, month: u8, day: u8, hour: u8, minute: u8, second: u8) -> (r: Option<DateTime>)
        ensures
            r == (if is_civil(year as int, month as int, day as int, hour as int, minute as int, second as int) {
                Some(DateTime { year, month, day, hour, minute, second })
            } else {
                None
            }),
    {
        if utc_exists(year, month as u32, day as u32, hour as u32, minute as u32, second as u32) {
            Some(DateTime { year, month, day, hour, minute, second })
        } else {
            None
        }
    }
}

/// What a compact date and time must hold, for diagnostics.
pub const EXPECTED_DATETIME: &'static str = "a date and a time of day";

/// The fields that six bytes of the band's compact form stand for: the
/// year counted from 2000, month, day, hour, minute, second.
pub open spec fn compact_fields(b: Seq<u8>) -> DateTime
    recommends
        b.len() == 6,
{
    DateTime { year: (2000 + b[0]) as i32, month: b[1], day: b[2], hour: b[3], minute: b[4], second: b[5] }
}

/// The index of the first byte of an invalid compact form that is out of
/// its range, the day's range being that of its month and year.
pub open spec fn compact_fault(b: Seq<u8>) -> int
    recommends
        b.len() == 6,
{
    if !(1 <= b[1] <= 12) {
        1
    } else if !(1 <= b[2] <= days_in_month(2000 + b[0], b[1] as int)) {
        2
    } else if b[3] >= 24 {
        3
    } else if b[4] >= 60 {
        4
    } else {
        5
    }
}

/// What decoding a compact date and time gives.
pub open spec fn spec_datetime_from_bytes(b: Seq<u8>) -> Result<DateTime, Error> {
    if b.len() != 6 {
        Err(Error::Length { expected: 6, actual: b.len() as usize })
    } else if compact_fields(b).is_valid() {
        Ok(compact_fields(b))
    } else {
        Err(Error::Parse {
            expected: EXPECTED_DATETIME,
            position: compact_fault(b) as usize,
            actual: b[compact_fault(b)],
        })
    }
}

/// The compact form of a date and time. The year wraps as its byte does.
pub open spec fn spec_datetime_as_bytes(dt: DateTime) -> Seq<u8> {
    seq![((dt.year - 2000) % 256) as u8, dt.month, dt.day, dt.hour, dt.minute, dt.second]
}

/// Decodes the band's compact date and time.
///
/// A buffer of another length than six is a length error. Six bytes that
/// name no second are a parse error at the first byte out of its range.
pub fn datetime_from_bytes(b: &[u8]) -> (r: Result<DateTime, Error>)
    ensures
        r == spec_datetime_from_bytes(b@),
{
    if b.len() != 6 {
        return Err(Error::Length { expected: 6, actual: b.len() });
    }
    let year: i32 = 2000 + b[0] as i32;
    let month: u32 = b[1] as u32;
    let day: u32 = b[2] as u32;
    if !utc_exists(year, month, day, 0, 0, 0) {
        let position: usize = if 1 <= month && month <= 12 { 2 } else { 1 };
        return Err(Error::Parse { expected: EXPECTED_DATETIME, position, actual: b[position] });
    }
    if b[3] >= 24 {
        Err(Error::Parse { expected: EXPECTED_DATETIME, position: 3, actual: b[3] })
    } else if b[4] >= 60 {
        Err(Error::Parse { expected: EXPECTED_DATETIME, position: 4, actual: b[4] })
    } else if b[5] >= 60 {
        Err(Error::Parse { expected: EXPECTED_DATETIME, position: 5, actual: b[5] })
    } else {
        Ok(DateTime { year, month: b[1], day: b[2], hour: b[3], minute: b[4], second: b[5] })
    }
}

/// Encodes a date and time in the band's compact form.
pub fn datetime_as_bytes(dt: &DateTime) -> (b: [u8; 6])
    ensures
        b@ == spec_datetime_as_bytes(*dt),
{
    let offset: i64 = dt.year as i64 - 2000;
    let wrapped: i64 = if offset >= 0 {
        offset % 256
    } else {
        255 - ((-offset - 1) % 256)
    };
    let b: [u8; 6] = [wrapped as u8, dt.month, dt.day, dt.hour, dt.minute, dt.second];
    assert(b@ =~= spec_datetime_as_bytes(*dt));
    b
}

} // verus!
