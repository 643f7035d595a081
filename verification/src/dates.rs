//! Calendar dates and times, read and written through chrono.
use vstd::prelude::*;

use chrono::{Datelike, Timelike};

verus! {

/// A day of the proleptic Gregorian calendar.
#[derive(Debug, Clone, Copy, PartialEq, Eq, Structural)]
pub struct Date {
    pub year: i32,
    /// 1 to 12.
    pub month: u32,
    /// 1 to the length of the month.
    pub day: u32,
}

/// A date with a time of day.
#[derive(Debug, Clone, Copy, PartialEq, Eq, Structural)]
pub struct DateTime {
    pub date: Date,
    pub hour: u32,
    pub minute: u32,
    pub second: u32,
    /// Fractions of a second; at least 1_000_000_000 during a leap second.
    pub nanosecond: u32,
}

/// Why chrono could not read a date or a time: chrono's message (its `ParseError` as text).
#[derive(Debug, Clone)]
pub struct DateParseError {
    pub message: String,
}

/// `d`, read.
pub open spec fn date_read(d: Date) -> Result<Date, DateParseError> {
    Ok(d)
}

/// `t`, read.
pub open spec fn datetime_read(t: DateTime) -> Result<DateTime, DateParseError> {
    Ok(t)
}

/// Whether `year` is a leap year.
pub open spec fn is_leap_year(year: int) -> bool {
    (year % 4 == 0 && year % 100 != 0) || year % 400 == 0
}

/// The number of days of a month.
pub open spec fn days_in_month(year: int, month: int) -> int {
    if month == 2 {
        if is_leap_year(year) {
            29
        } else {
            28
        }
    } else if month == 4 || month == 6 || month == 9 || month == 11 {
        30
    } else {
        31
    }
}

/// The years chrono can represent.
pub open spec fn chrono_year(year: int) -> bool {
    -262143 <= year <= 262142
}

impl Date {
    /// Whether this is a real day that chrono can represent.
    pub open spec fn valid(self) -> bool {
        &&& chrono_year(self.year as int)
        &&& 1 <= self.month <= 12
        &&& 1 <= self.day <= days_in_month(self.year as int, self.month as int)
    }

    /// Whether `self` comes before `other`, or is the same day.
    pub open spec fn le(self, other: Date) -> bool {
        self.year < other.year || (self.year == other.year && (self.month < other.month || (
        self.month == other.month && self.day <= other.day)))
    }

    /// Whether `self` comes before `other`, or is the same day.
    pub fn is_on_or_before(&self, other: &Date) -> (r: bool)
        ensures
            r == self.le(*other),
    {
        self.year < other.year || (self.year == other.year && (self.month < other.month || (
        self.month == other.month && self.day <= other.day)))
    }

    /// The later of two days.
    pub fn later(self, other: Date) -> (r: Date)
        ensures
            r == (if other.le(self) { self } else { other }),
    {
        if other.is_on_or_before(&self) {
            self
        } else {
            other
        }
    }

    /// The earlier of two days.
    pub fn earlier(self, other: Date) -> (r: Date)
        ensures
            r == (if self.le(other) { self } else { other }),
    {
        if self.is_on_or_before(&other) {
            self
        } else {
            other
        }
    }
}

/// The digit character for `n` (0 to 9).
pub open spec fn digit(n: int) -> char {
    (n + 48) as char
}

/// `n` (0 to 99) as two digits.
pub open spec fn pad2(n: int) -> Seq<char> {
    seq![digit(n / 10), digit(n % 10)]
}

/// `n` (0 to 9999) as four digits.
pub open spec fn pad4(n: int) -> Seq<char> {
    seq![digit(n / 1000), digit((n / 100) % 10), digit((n / 10) % 10), digit(n % 10)]
}

/// `dd/mm/YYYY`, for a year from 0 to 9999.
pub open spec fn mx_text(d: Date) -> Seq<char> {
    pad2(d.day as int) + seq!['/'] + pad2(d.month as int) + seq!['/'] + pad4(d.year as int)
}

/// `YYYY-mm-dd`, for a year from 0 to 9999.
pub open spec fn iso_text(d: Date) -> Seq<char> {
    pad4(d.year as int) + seq!['-'] + pad2(d.month as int) + seq!['-'] + pad2(d.day as int)
}

/// `YYYY-mm-ddTHH:MM:SS`, for a year from 0 to 9999.
pub open spec fn iso_datetime_text(t: DateTime) -> Seq<char> {
    iso_text(t.date) + seq!['T'] + pad2(t.hour as int) + seq![':'] + pad2(t.minute as int) + seq![
        ':',
    ] + pad2(t.second as int)
}

/// Whether the year is written with four digits and no sign.
pub open spec fn four_digit_year(d: Date) -> bool {
    0 <= d.year <= 9999
}

/// The day (year, month, day) that chrono's `NaiveDate::parse_from_str` reads from `text` with
/// `format`, if any.
pub uninterp spec fn chrono_date(text: Seq<char>, format: Seq<char>) -> Option<(int, int, int)>;

/// The date and time (year, month, day, hour, minute, second, nanosecond) that chrono's
/// `NaiveDateTime::parse_from_str` reads from `text` with `format`, if any.
pub uninterp spec fn chrono_datetime(text: Seq<char>, format: Seq<char>) -> Option<
    (int, int, int, int, int, int, int),
>;

/// The message of the error chrono's `NaiveDate::parse_from_str` gives for `text` with `format`
/// (its `ParseError` as text), when it reads no day.
pub uninterp spec fn chrono_date_error(text: Seq<char>, format: Seq<char>) -> Seq<char>;

/// The message of the error chrono's `NaiveDateTime::parse_from_str` gives for `text` with
/// `format` (its `ParseError` as text), when it reads no date and time.
pub uninterp spec fn chrono_datetime_error(text: Seq<char>, format: Seq<char>) -> Seq<char>;

/// The text chrono's `NaiveDate::format` writes for the day with `format`.
pub uninterp spec fn chrono_date_text(year: int, month: int, day: int, format: Seq<char>) -> Seq<char>;

/// `chrono::NaiveDate::parse_from_str`, its error turned into its message. What it reads is
/// named by `chrono_date`, the message by `chrono_date_error`. chrono's
/// documentation gives that a result is a real day in its range, and that `%d`, `%m` and `%Y`
/// read two-, two- and four-digit numbers, so that the canonical `dd/mm/YYYY` and `YYYY-mm-dd`
/// texts of a day with a four-digit year read back as that day. Whatever else it accepts (signs,
/// shorter numbers, leading spaces) is left to the name.
#[verifier::external_body]
pub(crate) fn chrono_parse_date(text: &str, format: &str) -> (r: Result<Date, DateParseError>)
    ensures
        r matches Ok(d) ==> d.valid() && chrono_date(text@, format@) == Some(
            (d.year as int, d.month as int, d.day as int),
        ),
        r is Err ==> chrono_date(text@, format@) is None,
        r matches Err(e) ==> e.message@ == chrono_date_error(text@, format@),
        format@ == "%d/%m/%Y"@ ==> forall|d: Date|
            d.valid() && four_digit_year(d) && text@ == mx_text(d) ==> r == date_read(d),
        format@ == "%Y-%m-%d"@ ==> forall|d: Date|
            d.valid() && four_digit_year(d) && text@ == iso_text(d) ==> r == date_read(d),
{
    match chrono::NaiveDate::parse_from_str(text, format) {
        Ok(d) => Ok(Date { year: d.year(), month: d.month(), day: d.day() }),
        Err(e) => Err(DateParseError { message: e.to_string() }),
    }
}

/// `chrono::NaiveDateTime::parse_from_str`, its error turned into its message. What it reads is
/// named by `chrono_datetime`, the message by `chrono_datetime_error`; a
/// result is a real day in chrono's range with a time of day (a leap second shows as a
/// nanosecond count of at least one second). The canonical `YYYY-mm-ddTHH:MM:SS` text of a
/// time with a four-digit year and no fraction reads back as that time.
#[verifier::external_body]
pub(crate) fn chrono_parse_datetime(text: &str, format: &str) -> (r: Result<DateTime, DateParseError>)
    ensures
        r matches Ok(t) ==> t.date.valid() && t.hour < 24 && t.minute < 60 && t.second < 60
            && t.nanosecond < 2_000_000_000 && chrono_datetime(text@, format@) == Some(
            (
                t.date.year as int,
                t.date.month as int,
                t.date.day as int,
                t.hour as int,
                t.minute as int,
                t.second as int,
                t.nanosecond as int,
            ),
        ),
        r is Err ==> chrono_datetime(text@, format@) is None,
        r matches Err(e) ==> e.message@ == chrono_datetime_error(text@, format@),
        format@ == "%Y-%m-%dT%H:%M:%S"@ ==> forall|t: DateTime|
            t.date.valid() && four_digit_year(t.date) && t.hour < 24 && t.minute < 60 && t.second
                < 60 && t.nanosecond == 0 && text@ == iso_datetime_text(t) ==> r == datetime_read(t),
{
    match chrono::NaiveDateTime::parse_from_str(text, format) {
        Ok(t) => Ok(DateTime {
            date: Date { year: t.year(), month: t.month(), day: t.day() },
            hour: t.hour(),
            minute: t.minute(),
            second: t.second(),
            nanosecond: t.nanosecond(),
        }),
        Err(e) => Err(DateParseError { message: e.to_string() }),
    }
}

/// `chrono::NaiveDate::format` with the `dd/mm/YYYY` format `%d/%m/%Y`, written out (a format
/// that chrono cannot write would make `to_string` panic, so no other is admitted). The text is
/// named by `chrono_date_text`; chrono's documentation gives the `dd/mm/YYYY` text for a
/// four-digit year (other years carry a sign).
#[verifier::external_body]
pub(crate) fn chrono_format_date(date: Date, format: &str) -> (r: String)
    requires
        date.valid(),
        format@ == "%d/%m/%Y"@,
    ensures
        r@ == chrono_date_text(date.year as int, date.month as int, date.day as int, format@),
        four_digit_year(date) ==> r@ == mx_text(date),
{
    chrono::NaiveDate::from_ymd_opt(date.year, date.month, date.day).unwrap().format(
        format,
    ).to_string()
}

/// `chrono::Utc::now().date_naive()`: today's date in UTC, which depends on the clock.
#[verifier::external_body]
pub(crate) fn today_utc() -> (r: Date)
    ensures
        r.valid(),
{
    let d = chrono::Utc::now().date_naive();
    Date { year: d.year(), month: d.month(), day: d.day() }
}

} // verus!
