//! Calendar dates, the key by which input and output objects are matched.

use chrono::Datelike;
use chrono::NaiveDate;
use vstd::prelude::*;

verus! {

/// A year, a month and a day as mathematical integers.
pub struct Day {
    pub year: int,
    pub month: int,
    pub day: int,
}

/// Whether a year of the proleptic Gregorian calendar has a 29th of February.
pub open spec fn is_leap_year(year: int) -> bool {
    year % 4 == 0 && (year % 100 != 0 || year % 400 == 0)
}

/// The number of days of a month of the proleptic Gregorian calendar.
pub open spec fn days_in_month(year: int, month: int) -> int {
    if month == 2 {
        if is_leap_year(year) { 29 } else { 28 }
    } else if month == 4 || month == 6 || month == 9 || month == 11 {
        30
    } else {
        31
    }
}

impl Day {
    /// Whether the three numbers name a day of the proleptic Gregorian calendar.
    pub open spec fn is_calendar_date(self) -> bool {
        &&& 1 <= self.month <= 12
        &&& 1 <= self.day <= days_in_month(self.year, self.month)
    }
}

/// A number that tells the days of the calendar apart: for a year of four
/// digits it reads `yyyymmdd`.
pub open spec fn day_code(day: Day) -> int {
    day.year * 10000 + day.month * 100 + day.day
}

/// Two days of the calendar with one code are one day.
pub proof fn lemma_day_code_tells_apart(a: Day, b: Day)
    requires
        a.is_calendar_date(),
        b.is_calendar_date(),
        day_code(a) == day_code(b),
    ensures
        a == b,
{
    let ra = a.month * 100 + a.day;
    let rb = b.month * 100 + b.day;
    assert(0 <= ra < 10000 && 0 <= rb < 10000);
    assert(a.year == b.year) by (nonlinear_arith)
        requires
            a.year * 10000 + ra == b.year * 10000 + rb,
            0 <= ra < 10000,
            0 <= rb < 10000,
    ;
    assert(a.month == b.month) by (nonlinear_arith)
        requires
            a.month * 100 + a.day == b.month * 100 + b.day,
            1 <= a.day <= 31,
            1 <= b.day <= 31,
    ;
}

/// The format under which dates stand in object names.
pub open spec fn date_format() -> Seq<char> {
    "%Y-%m-%d"@
}

/// What `chrono::NaiveDate::parse_from_str` makes of `text` under `format`:
/// the year, month and day of the date it returns, `None` where it returns an
/// error.
pub uninterp spec fn chrono_date(text: Seq<char>, format: Seq<char>) -> Option<(i32, u32, u32)>;

/// The day that `text` spells under [`date_format`], if it spells one.
pub open spec fn parsed_day(text: Seq<char>) -> Option<Day> {
    match chrono_date(text, date_format()) {
        Some(ymd) => Some(Day { year: ymd.0 as int, month: ymd.1 as int, day: ymd.2 as int }),
        None => None,
    }
}

/// Calls `chrono::NaiveDate::parse_from_str` and reads year, month and day off
/// the date with chrono's `Datelike`. Trusted: the outcome is the one named by
/// [`chrono_date`], and a date that chrono returns is a day of the proleptic
/// Gregorian calendar, as its `NaiveDate` documents.
#[verifier::external_body]
fn parse_with_chrono(text: &str, format: &str) -> (r: Option<(i32, u32, u32)>)
    ensures
        r == chrono_date(text@, format@),
        r matches Some(ymd) ==> (Day {
            year: ymd.0 as int,
            month: ymd.1 as int,
            day: ymd.2 as int,
        }).is_calendar_date(),
{
    match NaiveDate::parse_from_str(text, format) {
        Ok(date) => Some((date.year(), date.month(), date.day())),
        Err(_) => None,
    }
}

/// A calendar date without a time of day.
#[derive(Clone, Copy, Debug, PartialEq, Eq, Structural)]
pub struct DateKey {
    year: i32,
    month: u32,
    day: u32,
}

impl View for DateKey {
    type V = Day;

    closed spec fn view(&self) -> Day {
        Day { year: self.year as int, month: self.month as int, day: self.day as int }
    }
}

/// Whether `year` is a leap year of the Gregorian calendar.
pub fn leap_year(year: i32) -> (r: bool)
    ensures
        r == is_leap_year(year as int),
{
    year % 4 == 0 && (year % 100 != 0 || year % 400 == 0)
}

/// The length of a month; `month` counts from 1.
pub fn month_length(year: i32, month: u32) -> (r: u32)
    ensures
        r == days_in_month(year as int, month as int),
{
    if month == 2 {
        if leap_year(year) { 29 } else { 28 }
    } else if month == 4 || month == 6 || month == 9 || month == 11 {
        30
    } else {
        31
    }
}

impl DateKey {
    #[verifier::type_invariant]
    spec fn valid(self) -> bool {
        self@.is_calendar_date()
    }

    /// The date with the given year, month and day, where there is one.
    pub fn new(year: i32, month: u32, day: u32) -> (r: Option<DateKey>)
        ensures
            r is Some <==> (Day {
                year: year as int,
                month: month as int,
                day: day as int,
            }).is_calendar_date(),
            r matches Some(key) ==> key@ == (Day {
                year: year as int,
                month: month as int,
                day: day as int,
            }),
    {
        if 1 <= month && month <= 12 && 1 <= day && day <= month_length(year, month) {
            Some(DateKey { year, month, day })
        } else {
            None
        }
    }

    /// Reads a date written as year, month and day with hyphens between
    /// them, the form in which object names carry it.
    pub fn parse(text: &str) -> (r: Option<DateKey>)
        ensures
            r is Some <==> parsed_day(text@) is Some,
            r matches Some(key) ==> parsed_day(text@) == Some(key@),
    {
        match parse_with_chrono(text, "%Y-%m-%d") {
            Some(ymd) => DateKey::new(ymd.0, ymd.1, ymd.2),
            None => None,
        }
    }

    /// The number by which the date is told from every other one.
    pub fn code(&self) -> (r: i64)
        ensures
            r == day_code(self@),
            self@.is_calendar_date(),
            i32::MIN <= self@.year <= i32::MAX,
    {
        proof {
            use_type_invariant(self);
        }
        let year: i64 = self.year as i64;
        let month: i64 = self.month as i64;
        let day: i64 = self.day as i64;
        year * 10000 + month * 100 + day
    }

    pub fn year(&self) -> (r: i32)
        ensures
            r == self@.year,
    {
        self.year
    }

    pub fn month(&self) -> (r: u32)
        ensures
            r == self@.month,
            1 <= r <= 12,
    {
        proof {
            use_type_invariant(self);
        }
        self.month
    }

    pub fn day(&self) -> (r: u32)
        ensures
            r == self@.day,
            1 <= r <= 31,
    {
        proof {
            use_type_invariant(self);
        }
        self.day
    }
}

} // verus!
