//! Calendar dates held as day numbers of the proleptic Gregorian calendar.
//!
//! Day 1 is January 1 of year 1; year 0 is the year before it (1 BCE), as in
//! astronomical year numbering. The range of years is the one that `chrono`
//! can represent, so every `CalendarDate` converts to and from a
//! `chrono::NaiveDate`.

use vstd::prelude::*;

verus! {

/// The earliest year that a `CalendarDate` can fall in.
pub const MIN_YEAR: i32 = -262143;

/// The latest year that a `CalendarDate` can fall in.
pub const MAX_YEAR: i32 = 262142;

/// Day number of January 1 of `MIN_YEAR`.
pub const MIN_DAY: i32 = -95746129;

/// Day number of December 31 of `MAX_YEAR`.
pub const MAX_DAY: i32 = 95745399;

pub open spec fn is_leap_year(year: int) -> bool {
    year % 4 == 0 && (year % 100 != 0 || year % 400 == 0)
}

pub open spec fn days_in_month(year: int, month: int) -> int {
    if month == 2 {
        if is_leap_year(year) { 29 } else { 28 }
    } else if month == 4 || month == 6 || month == 9 || month == 11 {
        30
    } else {
        31
    }
}

/// A year, month and day that name an existing day inside the supported range.
pub open spec fn is_valid_ymd(year: int, month: int, day: int) -> bool {
    &&& MIN_YEAR <= year <= MAX_YEAR
    &&& 1 <= month <= 12
    &&& 1 <= day <= days_in_month(year, month)
}

/// Days of all the years before `year`, counted from January 1 of year 1
/// (negative for years before year 1).
pub open spec fn days_before_year(year: int) -> int {
    let p = year - 1;
    365 * p + p / 4 - p / 100 + p / 400
}

/// Days of the months of `year` before `month`.
pub open spec fn days_before_month(year: int, month: int) -> int {
    let common: int = if month <= 1 {
        0
    } else if month == 2 {
        31
    } else if month == 3 {
        59
    } else if month == 4 {
        90
    } else if month == 5 {
        120
    } else if month == 6 {
        151
    } else if month == 7 {
        181
    } else if month == 8 {
        212
    } else if month == 9 {
        243
    } else if month == 10 {
        273
    } else if month == 11 {
        304
    } else {
        334
    };
    if month > 2 && is_leap_year(year) { common + 1 } else { common }
}

/// The day number of a calendar date: January 1 of year 1 is day 1.
pub open spec fn day_number(year: int, month: int, day: int) -> int {
    days_before_year(year) + days_before_month(year, month) + day
}

/// The day number of the date that `text` spells in the pattern `%Y-%m-%d` as
/// chrono reads that pattern, or `None` where chrono finds no date in it.
pub uninterp spec fn iso_date_day(text: Seq<char>) -> Option<int>;

/// Relies on `chrono::NaiveDate::from_ymd_opt`, which yields a date exactly
/// when the year lies in chrono's range (`MIN_YEAR` to `MAX_YEAR`) and the
/// month and day exist in it, and on `chrono::Datelike::num_days_from_ce`,
/// which numbers that date in the proleptic Gregorian calendar with January 1
/// of year 1 as day 1. Every chrono date lies between `NaiveDate::MIN` (day
/// `MIN_DAY`) and `NaiveDate::MAX` (day `MAX_DAY`).
#[verifier::external_body]
fn ymd_day_number(year: i32, month: u32, day: u32) -> (r: Option<i32>)
    ensures
        r is Some <==> is_valid_ymd(year as int, month as int, day as int),
        r matches Some(n) ==> n == day_number(year as int, month as int, day as int),
        r matches Some(n) ==> MIN_DAY <= n <= MAX_DAY,
{
    match chrono::NaiveDate::from_ymd_opt(year, month, day) {
        Some(d) => Some(chrono::Datelike::num_days_from_ce(&d)),
        None => None,
    }
}

/// Relies on `chrono::NaiveDate::parse_from_str` with the pattern `%Y-%m-%d`,
/// whose outcome depends on the text alone, and on
/// `chrono::Datelike::num_days_from_ce` to number the date it finds, which
/// lies between `NaiveDate::MIN` (day `MIN_DAY`) and `NaiveDate::MAX` (day
/// `MAX_DAY`).
#[verifier::external_body]
fn iso_day_number(text: &str) -> (r: Option<i32>)
    ensures
        r is None <==> iso_date_day(text@) is None,
        r matches Some(n) ==> iso_date_day(text@) == Some(n as int),
        r matches Some(n) ==> MIN_DAY <= n <= MAX_DAY,
{
    match chrono::NaiveDate::parse_from_str(text, "%Y-%m-%d") {
        Ok(d) => Some(chrono::Datelike::num_days_from_ce(&d)),
        Err(_) => None,
    }
}

/// A day of the calendar, stored as its day number.
#[derive(Clone, Copy, Debug, PartialEq, Eq)]
pub struct CalendarDate {
    day: i32,
}

impl CalendarDate {
    #[verifier::type_invariant]
    spec fn in_range(self) -> bool {
        MIN_DAY <= self.day <= MAX_DAY
    }

    /// The day number of this date.
    pub closed spec fn view(&self) -> int {
        self.day as int
    }

    /// The date with the given year, month and day, where that day exists in
    /// the supported range.
    pub fn from_ymd(year: i32, month: u32, day: u32) -> (r: Option<CalendarDate>)
        ensures
            r is Some <==> is_valid_ymd(year as int, month as int, day as int),
            r matches Some(d) ==> d@ == day_number(year as int, month as int, day as int),
    {
        match ymd_day_number(year, month, day) {
            Some(n) => Some(CalendarDate { day: n }),
            None => None,
        }
    }

    /// The date that `text` spells in the pattern `YYYY-MM-DD`, if any.
    pub fn parse_iso(text: &str) -> (r: Option<CalendarDate>)
        ensures
            r is None <==> iso_date_day(text@) is None,
            r matches Some(d) ==> iso_date_day(text@) == Some(d@),
    {
        match iso_day_number(text) {
            Some(n) => Some(CalendarDate { day: n }),
            None => None,
        }
    }

    /// Two dates with the same day number are the same date.
    pub proof fn lemma_same_day(a: CalendarDate, b: CalendarDate)
        requires
            a@ == b@,
        ensures
            a == b,
    {
    }

    /// The day number of this date.
    pub fn day_number(&self) -> (r: i32)
        ensures
            r == self@,
            MIN_DAY <= r <= MAX_DAY,
    {
        proof {
            use_type_invariant(self);
        }
        self.day
    }

    /// The date `days` days after this one (before it, for a negative count).
    pub fn add_days(&self, days: i32) -> (r: CalendarDate)
        requires
            days >= 0 ==> self@ + days <= MAX_DAY,
            days < 0 ==> MIN_DAY <= self@ + days,
        ensures
            r@ == self@ + days,
    {
        proof {
            use_type_invariant(self);
        }
        CalendarDate { day: self.day + days }
    }

    /// The number of days from `earlier` to this date; negative when this date
    /// comes first.
    pub fn days_since(&self, earlier: &CalendarDate) -> (r: i32)
        ensures
            r == self@ - earlier@,
    {
        proof {
            use_type_invariant(self);
            use_type_invariant(earlier);
        }
        self.day - earlier.day
    }
}

} // verus!
