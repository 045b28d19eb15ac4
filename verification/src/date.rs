//! Calendar dates of the proleptic Gregorian calendar.

use vstd::prelude::*;
use crate::backend::{date_formatted, date_to_string, format_date};
use crate::cell_value::CellValue;
use crate::error::{accept_formatted, outcome_of_formatted, RenderError};
use crate::options::RenderChronoOptions;
use crate::text::zero_padded;

verus! {

/// The first year a date can lie in: the first that `chrono` has dates for.
pub const MIN_YEAR: i32 = -262_143;

/// The last year a date can lie in: the last that `chrono` has dates for.
pub const MAX_YEAR: i32 = 262_142;

/// Whether `year` has a 29th of February. Year 0 is 1 BCE, and leap.
pub open spec fn leap_year(year: int) -> bool {
    year % 4 == 0 && (year % 100 != 0 || year % 400 == 0)
}

/// The number of days of `month` in `year`.
pub open spec fn month_length(year: int, month: int) -> int
    recommends
        1 <= month <= 12,
{
    if month == 2 {
        if leap_year(year) {
            29
        } else {
            28
        }
    } else if month == 4 || month == 6 || month == 9 || month == 11 {
        30
    } else {
        31
    }
}

/// Whether year, month and day name a day of the calendar within the years
/// that a date can lie in.
pub open spec fn valid_date(year: int, month: int, day: int) -> bool {
    &&& MIN_YEAR <= year <= MAX_YEAR
    &&& 1 <= month <= 12
    &&& 1 <= day <= month_length(year, month)
}

/// A date as its three numbers.
pub struct DateView {
    pub year: int,
    pub month: int,
    pub day: int,
}

impl DateView {
    /// Whether the three numbers name a day that exists.
    pub open spec fn valid(self) -> bool {
        valid_date(self.year, self.month, self.day)
    }
}

/// The year of a date in text: four digits for the years 0 to 9999, else a
/// sign and at least four digits.
pub open spec fn year_text(year: int) -> Seq<char> {
    if 0 <= year <= 9999 {
        zero_padded(year as nat, 4)
    } else if year < 0 {
        seq!['-'] + zero_padded((-year) as nat, 4)
    } else {
        seq!['+'] + zero_padded(year as nat, 4)
    }
}

/// The canonical text of a date: year, month and day, with `-` between.
pub open spec fn date_text(date: DateView) -> Seq<char> {
    year_text(date.year) + seq!['-'] + zero_padded(date.month as nat, 2) + seq!['-'] + zero_padded(
        date.day as nat,
        2,
    )
}

/// A day of the calendar: year, month (1 to 12) and day of the month.
/// Every value is a day that exists.
#[derive(Clone, Copy, Debug, PartialEq, Eq)]
pub struct CalendarDate {
    pub(crate) year: i32,
    pub(crate) month: u32,
    pub(crate) day: u32,
}

impl View for CalendarDate {
    type V = DateView;

    closed spec fn view(&self) -> DateView {
        DateView { year: self.year as int, month: self.month as int, day: self.day as int }
    }
}

fn is_leap_year(year: i32) -> (leap: bool)
    ensures
        leap == leap_year(year as int),
{
    year % 4 == 0 && (year % 100 != 0 || year % 400 == 0)
}

fn days_in_month(year: i32, month: u32) -> (days: u32)
    requires
        1 <= month <= 12,
    ensures
        days == month_length(year as int, month as int),
{
    if month == 2 {
        if is_leap_year(year) {
            29
        } else {
            28
        }
    } else if month == 4 || month == 6 || month == 9 || month == 11 {
        30
    } else {
        31
    }
}

impl CalendarDate {
    /// Whether the date exists. Every date that code holds does; of a date
    /// that a proof merely speaks of, this says so.
    #[verifier::type_invariant]
    pub open spec fn valid(&self) -> bool {
        self@.valid()
    }

    /// The date of the given year, month and day, or `None` where the
    /// calendar has no such day or the year is out of range.
    pub fn new(year: i32, month: u32, day: u32) -> (date: Option<CalendarDate>)
        ensures
            date is Some <==> valid_date(year as int, month as int, day as int),
            date matches Some(d) ==> d@ == (DateView {
                year: year as int,
                month: month as int,
                day: day as int,
            }),
    {
        if year < MIN_YEAR || year > MAX_YEAR {
            return None;
        }
        if month < 1 || month > 12 {
            return None;
        }
        if day < 1 || day > days_in_month(year, month) {
            return None;
        }
        Some(CalendarDate { year, month, day })
    }

    /// The year.
    pub fn year(&self) -> (year: i32)
        ensures
            year == self@.year,
    {
        self.year
    }

    /// The month, from 1.
    pub fn month(&self) -> (month: u32)
        ensures
            month == self@.month,
            1 <= month <= 12,
    {
        proof {
            use_type_invariant(self);
        }
        self.month
    }

    /// The day of the month, from 1.
    pub fn day(&self) -> (day: u32)
        ensures
            day == self@.day,
            1 <= day <= 31,
    {
        proof {
            use_type_invariant(self);
        }
        self.day
    }
}

impl CellValue for CalendarDate {
    type RenderOptions = RenderChronoOptions;

    /// Under a pattern, what the formatter makes of the date; without one,
    /// the canonical text.
    open spec fn rendering(&self, options: &RenderChronoOptions) -> Result<Seq<char>, RenderError> {
        match options@ {
            Some(pattern) => outcome_of_formatted(date_formatted(self@, pattern)),
            None => Ok(date_text(self@)),
        }
    }

    fn render_value(self, options: &RenderChronoOptions) -> (outcome: Result<String, RenderError>) {
        proof {
            use_type_invariant(&self);
        }
        match &options.string {
            Some(pattern) => accept_formatted(format_date(&self, pattern.as_str())),
            None => Ok(date_to_string(&self)),
        }
    }
}

} // verus!
