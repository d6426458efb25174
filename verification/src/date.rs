//! Calendar dates of the proleptic Gregorian calendar, and their ISO 8601
//! text.

use vstd::prelude::*;
use crate::text::{digit_char, nat_text};

verus! {

/// The first year that a date can lie in.
pub const MIN_YEAR: i32 = -262143;

/// The last year that a date can lie in.
pub const MAX_YEAR: i32 = 262142;

/// Whether `year` has a 29th of February. Year 0 is 1 BCE, year -1 is 2 BCE.
pub open spec fn is_leap_year(year: int) -> bool {
    year % 4 == 0 && (year % 100 != 0 || year % 400 == 0)
}

/// The number of days of the month `month`, counted from 1, in `year`.
pub open spec fn days_in_month(year: int, month: int) -> int
    recommends
        1 <= month <= 12,
{
    if month == 2 {
        if is_leap_year(year) {
            29
        } else {
            28
        }
    } else if month == 4 || month == 6 || month == 9 || month == 11 {
        30
    } else {
        31
    }
}

/// Whether the day `day` of the month `month` exists in `year`, and `year`
/// is one that a date can lie in.
pub open spec fn is_calendar_date(year: int, month: int, day: int) -> bool {
    &&& MIN_YEAR <= year <= MAX_YEAR
    &&& 1 <= month <= 12
    &&& 1 <= day <= days_in_month(year, month)
}

/// A number under 100 in two digits.
pub open spec fn two_digits(n: int) -> Seq<char>
    recommends
        0 <= n < 100,
{
    seq![digit_char(n / 10), digit_char(n % 10)]
}

/// The magnitude of a year in at least four digits.
pub open spec fn year_digits(magnitude: nat) -> Seq<char> {
    if magnitude <= 9999 {
        two_digits(magnitude as int / 100) + two_digits(magnitude as int % 100)
    } else {
        nat_text(magnitude)
    }
}

/// The year of an ISO 8601 date: four digits for the years 0 to 9999, and a
/// sign before the digits for every other year.
pub open spec fn year_text(year: int) -> Seq<char> {
    if 0 <= year <= 9999 {
        year_digits(year as nat)
    } else if year < 0 {
        seq!['-'] + year_digits((-year) as nat)
    } else {
        seq!['+'] + year_digits(year as nat)
    }
}

/// The ISO 8601 text of a calendar date: year, month and day, with a hyphen
/// between them.
pub open spec fn iso_date_text(year: int, month: int, day: int) -> Seq<char> {
    year_text(year) + seq!['-'] + two_digits(month) + seq!['-'] + two_digits(day)
}

/// Year, month and day of a date, as mathematical integers.
pub ghost struct Ymd {
    pub year: int,
    pub month: int,
    pub day: int,
}

/// A day of the calendar. Every value is a day that exists.
#[derive(Clone, Copy, PartialEq, Eq, Structural, Debug)]
pub struct Date {
    year: i32,
    month: u32,
    day: u32,
}

impl View for Date {
    type V = Ymd;

    closed spec fn view(&self) -> Ymd {
        Ymd { year: self.year as int, month: self.month as int, day: self.day as int }
    }
}

/// Formats a date with chrono: `NaiveDate::from_ymd_opt` makes the date and
/// its `Display` impl prints it. The contract claims that a date is made
/// exactly for the days that exist in the years chrono covers, and that the
/// text is the year in four digits (with a sign outside 0 to 9999), the month
/// and the day in two digits each, joined by hyphens.
#[verifier::external_body]
fn format_ymd(year: i32, month: u32, day: u32) -> (text: Option<String>)
    ensures
        text is Some <==> is_calendar_date(year as int, month as int, day as int),
        text matches Some(s) ==> s@ == iso_date_text(year as int, month as int, day as int),
{
    match chrono::NaiveDate::from_ymd_opt(year, month, day) {
        Some(date) => Some(date.to_string()),
        None => None,
    }
}

/// Whether `year` is a leap year.
fn leap_year(year: i32) -> (leap: bool)
    requires
        MIN_YEAR <= year <= MAX_YEAR,
    ensures
        leap == is_leap_year(year as int),
{
    // 262400 is a multiple of 400 above every year's magnitude.
    let shifted: u32 = (year + 262400) as u32;
    shifted % 4 == 0 && (shifted % 100 != 0 || shifted % 400 == 0)
}

/// The number of days of a month.
fn month_length(year: i32, month: u32) -> (days: u32)
    requires
        MIN_YEAR <= year <= MAX_YEAR,
        1 <= month <= 12,
    ensures
        days == days_in_month(year as int, month as int),
{
    if month == 2 {
        if leap_year(year) {
            29
        } else {
            28
        }
    } else if month == 4 || month == 6 || month == 9 || month == 11 {
        30
    } else {
        31
    }
}

impl Date {
    /// What holds of every date.
    #[verifier::type_invariant]
    pub open spec fn is_valid(self) -> bool {
        is_calendar_date(self@.year, self@.month, self@.day)
    }

    /// The date with the given year, month and day, if that day exists.
    pub fn new(year: i32, month: u32, day: u32) -> (date: Option<Date>)
        ensures
            date is Some <==> is_calendar_date(year as int, month as int, day as int),
            date matches Some(d) ==> d@ == (Ymd {
                year: year as int,
                month: month as int,
                day: day as int,
            }) && d.is_valid(),
    {
        if year < MIN_YEAR || year > MAX_YEAR || month < 1 || month > 12 || day < 1 {
            return None;
        }
        if day > month_length(year, month) {
            return None;
        }
        Some(Date { year, month, day })
    }

    /// The year; 0 is 1 BCE.
    pub fn year(&self) -> (year: i32)
        ensures
            year == self@.year,
    {
        self.year
    }

    /// The month, from 1 to 12.
    pub fn month(&self) -> (month: u32)
        ensures
            month == self@.month,
            1 <= month <= 12,
    {
        proof {
            use_type_invariant(self);
        }
        self.month
    }

    /// The day of the month, from 1.
    pub fn day(&self) -> (day: u32)
        ensures
            day == self@.day,
            1 <= day <= days_in_month(self@.year, self@.month),
    {
        proof {
            use_type_invariant(self);
        }
        self.day
    }

    /// The date in ISO 8601 form, such as `2020-01-01`.
    pub fn text(&self) -> (text: String)
        ensures
            text@ == iso_date_text(self@.year, self@.month, self@.day),
    {
        proof {
            use_type_invariant(self);
        }
        format_ymd(self.year, self.month, self.day).unwrap()
    }
}

} // verus!
