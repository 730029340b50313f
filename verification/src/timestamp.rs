//! Wall-clock timestamps: the calendar fields of a moment in local time,
//! read from the system clock and rendered as text by `chrono`.

use chrono::{Datelike, Timelike};
use vstd::prelude::*;
use vstd::string::StringExecFns;

verus! {

/// Earliest year a timestamp can carry.
pub const MIN_YEAR: i32 = -262143;

/// Latest year a timestamp can carry.
pub const MAX_YEAR: i32 = 262142;

/// The calendar fields of a timestamp as mathematical integers.
pub struct CivilTime {
    pub year: int,
    pub month: int,
    pub day: int,
    pub hour: int,
    pub minute: int,
    pub second: int,
}

/// Leap years of the proleptic Gregorian calendar.
pub open spec fn is_leap_year(year: int) -> bool {
    year % 4 == 0 && (year % 100 != 0 || year % 400 == 0)
}

/// Number of days of a month of the proleptic Gregorian calendar.
pub open spec fn days_in_month(year: int, month: int) -> int {
    if month == 2 {
        if is_leap_year(year) {
            29
        } else {
            28
        }
    } else if month == 4 || month == 6 || month == 9 || month == 11 {
        30
    } else {
        31
    }
}

/// The fields name a day that exists in the calendar and a second of that day.
pub open spec fn is_civil_time(t: CivilTime) -> bool {
    &&& MIN_YEAR <= t.year <= MAX_YEAR
    &&& 1 <= t.month <= 12
    &&& 1 <= t.day <= days_in_month(t.year, t.month)
    &&& 0 <= t.hour < 24
    &&& 0 <= t.minute < 60
    &&& 0 <= t.second < 60
}

/// The character of a decimal digit.
pub open spec fn digit(d: int) -> char
    recommends
        0 <= d <= 9,
{
    seq!['0', '1', '2', '3', '4', '5', '6', '7', '8', '9'][d]
}

/// A number below one hundred as exactly two digits.
pub open spec fn two_digits(n: int) -> Seq<char>
    recommends
        0 <= n <= 99,
{
    seq![digit(n / 10), digit(n % 10)]
}

/// A natural number in decimal, without leading zeros.
pub open spec fn decimal(n: nat) -> Seq<char>
    decreases n,
{
    if n < 10 {
        seq![digit(n as int)]
    } else {
        decimal(n / 10).push(digit((n % 10) as int))
    }
}

/// `digits` with zeros in front until it is `width` characters long.
pub open spec fn zero_padded(digits: Seq<char>, width: nat) -> Seq<char> {
    if digits.len() >= width {
        digits
    } else {
        Seq::new((width - digits.len()) as nat, |i: int| '0') + digits
    }
}

/// A year as text: four digits from year 0 to year 9999, and otherwise a sign
/// followed by at least four digits.
pub open spec fn year_text(year: int) -> Seq<char> {
    if 0 <= year <= 9999 {
        two_digits(year / 100) + two_digits(year % 100)
    } else if year > 9999 {
        seq!['+'] + decimal(year as nat)
    } else {
        seq!['-'] + zero_padded(decimal((-year) as nat), 4)
    }
}

/// A timestamp as text, in the form `YYYY-MM-DD HH:MM:SS`.
pub open spec fn timestamp_text(t: CivilTime) -> Seq<char> {
    year_text(t.year) + seq!['-'] + two_digits(t.month) + seq!['-'] + two_digits(t.day)
        + seq![' '] + two_digits(t.hour) + seq![':'] + two_digits(t.minute) + seq![':']
        + two_digits(t.second)
}

/// From year 0 to year 9999 the text of a moment is nineteen characters long,
/// with the separators of `YYYY-MM-DD HH:MM:SS` in their places.
pub proof fn lemma_timestamp_text_shape(t: CivilTime)
    requires
        0 <= t.year <= 9999,
    ensures
        timestamp_text(t).len() == 19,
        timestamp_text(t)[4] == '-',
        timestamp_text(t)[7] == '-',
        timestamp_text(t)[10] == ' ',
        timestamp_text(t)[13] == ':',
        timestamp_text(t)[16] == ':',
{
}

/// A moment in local time, to the second.
#[derive(Debug, Clone, Copy, PartialEq, Eq)]
pub struct Timestamp {
    year: i32,
    month: u32,
    day: u32,
    hour: u32,
    minute: u32,
    second: u32,
}

impl View for Timestamp {
    type V = CivilTime;

    closed spec fn view(&self) -> CivilTime {
        CivilTime {
            year: self.year as int,
            month: self.month as int,
            day: self.day as int,
            hour: self.hour as int,
            minute: self.minute as int,
            second: self.second as int,
        }
    }
}

/// Tells whether `year` is a leap year.
fn leap_year(year: i32) -> (leap: bool)
    ensures
        leap == is_leap_year(year as int),
{
    year % 4 == 0 && (year % 100 != 0 || year % 400 == 0)
}

/// Number of days of the given month; 31 for a month outside the calendar.
fn month_length(year: i32, month: u32) -> (days: u32)
    ensures
        days == days_in_month(year as int, month as int),
{
    if month == 2 {
        if leap_year(year) {
            29
        } else {
            28
        }
    } else if month == 4 || month == 6 || month == 9 || month == 11 {
        30
    } else {
        31
    }
}

impl Timestamp {
    #[verifier::type_invariant]
    closed spec fn well_formed(self) -> bool {
        is_civil_time(self@)
    }

    /// Makes a timestamp from calendar fields, provided they name a moment that exists.
    pub fn new(year: i32, month: u32, day: u32, hour: u32, minute: u32, second: u32) -> (made:
        Option<Timestamp>)
        ensures
            made is Some <==> is_civil_time(
                (CivilTime {
                    year: year as int,
                    month: month as int,
                    day: day as int,
                    hour: hour as int,
                    minute: minute as int,
                    second: second as int,
                }),
            ),
            made matches Some(t) ==> t@ == (CivilTime {
                year: year as int,
                month: month as int,
                day: day as int,
                hour: hour as int,
                minute: minute as int,
                second: second as int,
            }),
    {
        if year < MIN_YEAR || year > MAX_YEAR || month < 1 || month > 12 || day < 1 || hour >= 24
            || minute >= 60 || second >= 60 {
            return None;
        }
        if day > month_length(year, month) {
            return None;
        }
        Some(Timestamp { year, month, day, hour, minute, second })
    }

    /// The local time the system clock shows at the moment of the call.
    ///
    /// Trusted: calls `chrono::Local::now`, takes its view in local time with
    /// `DateTime::naive_local` and copies out the calendar fields. Which moment
    /// comes back is not stated; that it is a day of the calendar within
    /// `chrono`'s range of years, with the second below sixty, is what `chrono`
    /// keeps of every `NaiveDateTime`.
    #[verifier::external_body]
    pub(crate) fn now() -> (now: Timestamp)
        ensures
            is_civil_time(now@),
    {
        let local = chrono::Local::now().naive_local();
        Timestamp {
            year: local.year(),
            month: local.month(),
            day: local.day(),
            hour: local.hour(),
            minute: local.minute(),
            second: local.second(),
        }
    }

    /// Trusted: rebuilds the moment as a `chrono::NaiveDateTime` and renders it
    /// with `NaiveDateTime::format` and the pattern `%Y-%m-%d %H:%M:%S`. For
    /// that pattern `chrono` writes the year as four digits, or with a sign
    /// when it lies outside 0 to 9999, and every other field as two digits;
    /// `timestamp_text` says the same.
    #[verifier::external_body]
    fn render(&self) -> (text: String)
        requires
            is_civil_time(self@),
        ensures
            text@ == timestamp_text(self@),
    {
        let date = chrono::NaiveDate::from_ymd_opt(self.year, self.month, self.day).unwrap();
        let moment = date.and_hms_opt(self.hour, self.minute, self.second).unwrap();
        moment.format("%Y-%m-%d %H:%M:%S").to_string()
    }

    /// The timestamp as text, in the form `YYYY-MM-DD HH:MM:SS`.
    pub fn to_text(&self) -> (text: String)
        ensures
            text@ == timestamp_text(self@),
    {
        proof {
            use_type_invariant(self);
        }
        self.render()
    }

    /// The year.
    pub fn year(&self) -> (year: i32)
        ensures
            year == self@.year,
    {
        self.year
    }

    /// The month, from 1 to 12.
    pub fn month(&self) -> (month: u32)
        ensures
            month == self@.month,
    {
        self.month
    }

    /// The day of the month, from 1.
    pub fn day(&self) -> (day: u32)
        ensures
            day == self@.day,
    {
        self.day
    }

    /// The hour, from 0 to 23.
    pub fn hour(&self) -> (hour: u32)
        ensures
            hour == self@.hour,
    {
        self.hour
    }

    /// The minute, from 0 to 59.
    pub fn minute(&self) -> (minute: u32)
        ensures
            minute == self@.minute,
    {
        self.minute
    }

    /// The second, from 0 to 59.
    pub fn second(&self) -> (second: u32)
        ensures
            second == self@.second,
    {
        self.second
    }
}

/// Text shown for a timestamp that may be absent: `None` when there is none.
pub open spec fn date_text(date: Option<Timestamp>) -> Seq<char> {
    match date {
        None => "None"@,
        Some(moment) => timestamp_text(moment@),
    }
}

/// Renders the time of a last action for display.
pub fn format_date(date: Option<Timestamp>) -> (text: String)
    ensures
        text@ == date_text(date),
{
    match date {
        None => String::from_str("None"),
        Some(moment) => moment.to_text(),
    }
}

} // verus!
