//! Capture dates: a calendar date with a time of day, read and written in the
//! form that EXIF tags use, `YYYY:MM:DD HH:MM:SS`, by `chrono`.

use vstd::prelude::*;
use crate::text::{decimal, zero_padded};
use chrono::{Datelike, NaiveDate, NaiveDateTime, Timelike};

verus! {

/// The fields of a date and time, as plain numbers. `nanosecond` counts from
/// the start of `second`; a value of a thousand million or more stands for a
/// leap second that follows second 59.
#[derive(Clone, Copy, Debug, PartialEq, Eq, Structural)]
pub struct DateFields {
    pub year: i32,
    pub month: u32,
    pub day: u32,
    pub hour: u32,
    pub minute: u32,
    pub second: u32,
    pub nanosecond: u32,
}

/// Whether `year` has a 29th of February in the proleptic Gregorian calendar.
pub open spec fn is_leap_year(year: int) -> bool {
    year % 4 == 0 && (year % 100 != 0 || year % 400 == 0)
}

/// The number of days of `month` in `year`.
pub open spec fn days_in_month(year: int, month: int) -> int {
    if month == 2 {
        if is_leap_year(year) {
            29
        } else {
            28
        }
    } else if month == 4 || month == 6 || month == 9 || month == 11 {
        30
    } else {
        31
    }
}

/// Whether the fields name a day that exists, in the years that `chrono`
/// can hold, and a time of that day.
pub open spec fn valid_fields(fields: DateFields) -> bool {
    &&& -262143 <= fields.year <= 262142
    &&& 1 <= fields.month <= 12
    &&& 1 <= fields.day <= days_in_month(fields.year as int, fields.month as int)
    &&& fields.hour < 24
    &&& fields.minute < 60
    &&& fields.second < 60
    &&& fields.nanosecond < 2_000_000_000
    &&& (fields.nanosecond >= 1_000_000_000 ==> fields.second == 59)
}

/// How a year is written: four digits from 0 to 9999, otherwise a sign and
/// at least four digits.
pub open spec fn year_text(year: int) -> Seq<char> {
    if 0 <= year <= 9999 {
        zero_padded(year as nat, 4)
    } else if year < 0 {
        seq!['-'] + zero_padded((-year) as nat, 4)
    } else {
        seq!['+'] + decimal(year as nat)
    }
}

/// The second as it is written: 60 for a leap second.
pub open spec fn written_second(fields: DateFields) -> nat {
    (fields.second + fields.nanosecond / 1_000_000_000) as nat
}

/// The fields in the order year, month, day, hour, minute, second, with
/// `date_mark` inside the date, `middle` between date and time and
/// `time_mark` inside the time.
pub open spec fn stamp_text(fields: DateFields, date_mark: char, middle: char, time_mark: char) -> Seq<
    char,
> {
    year_text(fields.year as int) + seq![date_mark] + zero_padded(fields.month as nat, 2)
        + seq![date_mark] + zero_padded(fields.day as nat, 2) + seq![middle] + zero_padded(
        fields.hour as nat,
        2,
    ) + seq![time_mark] + zero_padded(fields.minute as nat, 2) + seq![time_mark] + zero_padded(
        written_second(fields),
        2,
    )
}

/// The date as an EXIF tag holds it: `YYYY:MM:DD HH:MM:SS`.
pub open spec fn exif_date_text(fields: DateFields) -> Seq<char> {
    stamp_text(fields, ':', ' ', ':')
}

/// The date as a file name begins with it: `YYYY_MM_DD-HH_MM_SS`.
pub open spec fn file_stamp_text(fields: DateFields) -> Seq<char> {
    stamp_text(fields, '_', '-', '_')
}

/// What `chrono` reads from `text` under the format `pattern`: the fields of
/// the date, or nothing where the text does not match.
pub uninterp spec fn parsed_date(text: Seq<char>, pattern: Seq<char>) -> Option<DateFields>;

/// The date that a tag's text stands for: what `chrono` reads from it under
/// `%Y:%m:%d %H:%M:%S`, where that is a valid date.
pub open spec fn exif_date_of(text: Seq<char>) -> Option<DateFields> {
    match parsed_date(text, "%Y:%m:%d %H:%M:%S"@) {
        Some(fields) => if valid_fields(fields) {
            Some(fields)
        } else {
            None
        },
        None => None,
    }
}

/// Parses `text` with `NaiveDateTime::parse_from_str` under `pattern` and
/// hands out the fields of the date it found. The contract only names the
/// result.
#[verifier::external_body]
fn parse_fields(text: &str, pattern: &str) -> (fields: Option<DateFields>)
    ensures
        fields == parsed_date(text@, pattern@),
{
    match NaiveDateTime::parse_from_str(text, pattern) {
        Ok(date) => Some(
            DateFields {
                year: date.year(),
                month: date.month(),
                day: date.day(),
                hour: date.hour(),
                minute: date.minute(),
                second: date.second(),
                nanosecond: date.nanosecond(),
            },
        ),
        Err(_) => None,
    }
}

/// Builds the `NaiveDateTime` of the fields (`NaiveDate::from_ymd_opt`,
/// `NaiveDate::and_hms_nano_opt`) and writes it with
/// `NaiveDateTime::format`. Claimed of `chrono`: valid fields are accepted,
/// and under the two patterns named here the year is written by
/// [`year_text`], each other field with two digits, and a leap second as 60.
#[verifier::external_body]
fn format_fields(fields: &DateFields, pattern: &str) -> (text: String)
    requires
        valid_fields(*fields),
        pattern@ == "%Y:%m:%d %H:%M:%S"@ || pattern@ == "%Y_%m_%d-%H_%M_%S"@,
    ensures
        pattern@ == "%Y:%m:%d %H:%M:%S"@ ==> text@ == exif_date_text(*fields),
        pattern@ == "%Y_%m_%d-%H_%M_%S"@ ==> text@ == file_stamp_text(*fields),
{
    let day = NaiveDate::from_ymd_opt(fields.year, fields.month, fields.day).unwrap();
    let date = day.and_hms_nano_opt(fields.hour, fields.minute, fields.second, fields.nanosecond);
    date.unwrap().format(pattern).to_string()
}

/// A text that is no date in the form `YYYY:MM:DD HH:MM:SS`.
#[derive(Clone, Copy, Debug, PartialEq, Eq, Structural)]
pub struct DateParseError;

/// A valid date and time of day, without a time zone.
#[derive(Clone, Copy, Debug, PartialEq, Eq, Structural)]
pub struct DateTime {
    fields: DateFields,
}

impl View for DateTime {
    type V = DateFields;

    closed spec fn view(&self) -> DateFields {
        self.fields
    }
}

/// Whether `year` has a 29th of February.
fn leap_year(year: i32) -> (leap: bool)
    requires
        -262143 <= year <= 262142,
    ensures
        leap == is_leap_year(year as int),
{
    // 262400 is a multiple of 400, so the shift keeps every remainder.
    let shifted: u32 = (year + 262400) as u32;
    assert(shifted % 4 == 0 <==> (year as int) % 4 == 0);
    assert(shifted % 100 == 0 <==> (year as int) % 100 == 0);
    assert(shifted % 400 == 0 <==> (year as int) % 400 == 0);
    shifted % 4 == 0 && (shifted % 100 != 0 || shifted % 400 == 0)
}

/// Whether the fields name an existing day and a time of it.
pub fn check_fields(fields: &DateFields) -> (valid: bool)
    ensures
        valid == valid_fields(*fields),
{
    if fields.year < -262143 || fields.year > 262142 {
        return false;
    }
    if fields.month < 1 || fields.month > 12 || fields.day < 1 {
        return false;
    }
    let days: u32 = if fields.month == 2 {
        if leap_year(fields.year) {
            29
        } else {
            28
        }
    } else if fields.month == 4 || fields.month == 6 || fields.month == 9 || fields.month == 11 {
        30
    } else {
        31
    };
    fields.day <= days && fields.hour < 24 && fields.minute < 60 && fields.second < 60
        && fields.nanosecond < 2_000_000_000 && (fields.nanosecond < 1_000_000_000
        || fields.second == 59)
}

impl DateTime {
    #[verifier::type_invariant]
    spec fn valid(self) -> bool {
        valid_fields(self.fields)
    }

    /// The date of the given fields, where they are valid.
    pub fn from_fields(fields: DateFields) -> (date: Option<DateTime>)
        ensures
            valid_fields(fields) ==> date is Some && date.unwrap()@ == fields,
            !valid_fields(fields) ==> date is None,
    {
        if check_fields(&fields) {
            Some(DateTime { fields })
        } else {
            None
        }
    }

    /// The date of the given day and whole second, where they exist.
    pub fn new(year: i32, month: u32, day: u32, hour: u32, minute: u32, second: u32) -> (date:
        Option<DateTime>)
        ensures
            ({
                let fields = DateFields { year, month, day, hour, minute, second, nanosecond: 0 };
                &&& valid_fields(fields) ==> date is Some && date.unwrap()@ == fields
                &&& !valid_fields(fields) ==> date is None
            }),
    {
        DateTime::from_fields(DateFields { year, month, day, hour, minute, second, nanosecond: 0 })
    }

    /// The fields of the date, which are valid.
    pub fn fields(&self) -> (fields: DateFields)
        ensures
            fields == self@,
            valid_fields(fields),
    {
        proof {
            use_type_invariant(self);
        }
        self.fields
    }

    /// Whether two dates are the same.
    pub fn same(&self, other: &DateTime) -> (same: bool)
        ensures
            same == (self@ == other@),
    {
        self.fields == other.fields
    }

    /// The date as an EXIF tag holds it, `YYYY:MM:DD HH:MM:SS`.
    pub fn to_exif_string(&self) -> (text: String)
        ensures
            text@ == exif_date_text(self@),
    {
        let fields = self.fields();
        format_fields(&fields, "%Y:%m:%d %H:%M:%S")
    }

    /// The date as a file name begins with it, `YYYY_MM_DD-HH_MM_SS`.
    pub fn to_file_stamp(&self) -> (text: String)
        ensures
            text@ == file_stamp_text(self@),
    {
        let fields = self.fields();
        format_fields(&fields, "%Y_%m_%d-%H_%M_%S")
    }

    /// Reads a date in the form `YYYY:MM:DD HH:MM:SS`, as `chrono` reads it.
    pub fn from_exif_string(text: &str) -> (date: Result<DateTime, DateParseError>)
        ensures
            match date {
                Ok(d) => exif_date_of(text@) == Some(d@),
                Err(_) => exif_date_of(text@) is None,
            },
    {
        match parse_fields(text, "%Y:%m:%d %H:%M:%S") {
            Some(fields) => match DateTime::from_fields(fields) {
                Some(date) => Ok(date),
                None => Err(DateParseError),
            },
            None => Err(DateParseError),
        }
    }
}

} // verus!
