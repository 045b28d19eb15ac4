//! The calls into `chrono`. Nothing in this file is proved: each contract
//! says what the `chrono` function named above it does. Each call first
//! rebuilds the `chrono` value from the numbers of a valid date or time: the
//! date by `from_ymd_opt`, the time by `from_hms_opt` and then
//! `Timelike::with_nanosecond`, which takes a leap second after any second.
//! Each of them returns a value for valid numbers.
//!
//! The formatter reads no locale, clock or time zone: what it writes is a
//! function of the value and the pattern, which the three `*_formatted`
//! functions give a name to.

use vstd::prelude::*;
use crate::date::{date_text, CalendarDate, DateView};
use crate::datetime::{date_time_text, CalendarDateTime, DateTimeView};
use crate::error::formatted_view;
use crate::time::{time_text, TimeOfDay, TimeView};

verus! {

/// What `chrono::NaiveDate::format` with `pattern` writes for `date`: the
/// whole text, or `None` where the pattern holds a specifier that `chrono`
/// does not know or that asks for more than a date holds.
pub uninterp spec fn date_formatted(date: DateView, pattern: Seq<char>) -> Option<Seq<char>>;

/// `Display` of `chrono::NaiveDate`, through `to_string`: the year in four
/// digits, or with a sign and at least four digits where it does not lie in
/// 0 to 9999, then month and day in two digits each, with `-` between.
#[verifier::external_body]
pub(crate) fn date_to_string(date: &CalendarDate) -> (text: String)
    requires
        date.valid(),
    ensures
        text@ == date_text(date@),
{
    chrono::NaiveDate::from_ymd_opt(date.year, date.month, date.day).unwrap().to_string()
}

/// `chrono::NaiveDate::format` with `pattern`, written out by
/// `DelayedFormat::write_to`, which returns an error where `to_string`
/// would panic. The text comes back only where all of it was written.
#[verifier::external_body]
pub(crate) fn format_date(date: &CalendarDate, pattern: &str) -> (formatted: Option<String>)
    requires
        date.valid(),
    ensures
        formatted_view(formatted) == date_formatted(date@, pattern@),
{
    let value = chrono::NaiveDate::from_ymd_opt(date.year, date.month, date.day).unwrap();
    let mut text = String::new();
    match value.format(pattern).write_to(&mut text) {
        Ok(()) => Some(text),
        Err(_) => None,
    }
}

/// What `chrono::NaiveTime::format` with `pattern` writes for `time`: the
/// whole text, or `None` where the pattern holds a specifier that `chrono`
/// does not know or that asks for more than a time of day holds.
pub uninterp spec fn time_formatted(time: TimeView, pattern: Seq<char>) -> Option<Seq<char>>;

/// `Display` of `chrono::NaiveTime`, through `to_string`: hour, minute and
/// second in two digits each, with `:` between, the second shown one higher
/// within a leap second; then, unless it is zero, the fraction of the second
/// after a point, in three, six or nine digits.
#[verifier::external_body]
pub(crate) fn time_to_string(time: &TimeOfDay) -> (text: String)
    requires
        time.valid(),
    ensures
        text@ == time_text(time@),
{
    let value = chrono::NaiveTime::from_hms_opt(time.hour, time.minute, time.second).unwrap();
    chrono::Timelike::with_nanosecond(&value, time.nanosecond).unwrap().to_string()
}

/// `chrono::NaiveTime::format` with `pattern`, written out by
/// `DelayedFormat::write_to`, which returns an error where `to_string`
/// would panic. The text comes back only where all of it was written.
#[verifier::external_body]
pub(crate) fn format_time(time: &TimeOfDay, pattern: &str) -> (formatted: Option<String>)
    requires
        time.valid(),
    ensures
        formatted_view(formatted) == time_formatted(time@, pattern@),
{
    let value = chrono::NaiveTime::from_hms_opt(time.hour, time.minute, time.second).unwrap();
    let value = chrono::Timelike::with_nanosecond(&value, time.nanosecond).unwrap();
    let mut text = String::new();
    match value.format(pattern).write_to(&mut text) {
        Ok(()) => Some(text),
        Err(_) => None,
    }
}

/// What `chrono::NaiveDateTime::format` with `pattern` writes for
/// `date_time`: the whole text, or `None` where the pattern holds a specifier
/// that `chrono` does not know or that asks for a time zone.
pub uninterp spec fn date_time_formatted(date_time: DateTimeView, pattern: Seq<char>) -> Option<
    Seq<char>,
>;

/// `Display` of `chrono::NaiveDateTime`, through `to_string`: the date as
/// `NaiveDate` shows it, a space, and the time as `NaiveTime` shows it.
#[verifier::external_body]
pub(crate) fn date_time_to_string(date_time: &CalendarDateTime) -> (text: String)
    requires
        date_time.valid(),
    ensures
        text@ == date_time_text(date_time@),
{
    let (d, t) = (&date_time.date, &date_time.time);
    let date = chrono::NaiveDate::from_ymd_opt(d.year, d.month, d.day).unwrap();
    let time = chrono::NaiveTime::from_hms_opt(t.hour, t.minute, t.second).unwrap();
    let time = chrono::Timelike::with_nanosecond(&time, t.nanosecond).unwrap();
    chrono::NaiveDateTime::new(date, time).to_string()
}

/// `chrono::NaiveDateTime::format` with `pattern`, written out by
/// `DelayedFormat::write_to`, which returns an error where `to_string`
/// would panic. The text comes back only where all of it was written.
#[verifier::external_body]
pub(crate) fn format_date_time(date_time: &CalendarDateTime, pattern: &str) -> (formatted: Option<
    String,
>)
    requires
        date_time.valid(),
    ensures
        formatted_view(formatted) == date_time_formatted(date_time@, pattern@),
{
    let (d, t) = (&date_time.date, &date_time.time);
    let date = chrono::NaiveDate::from_ymd_opt(d.year, d.month, d.day).unwrap();
    let time = chrono::NaiveTime::from_hms_opt(t.hour, t.minute, t.second).unwrap();
    let time = chrono::Timelike::with_nanosecond(&time, t.nanosecond).unwrap();
    let mut text = String::new();
    match chrono::NaiveDateTime::new(date, time).format(pattern).write_to(&mut text) {
        Ok(()) => Some(text),
        Err(_) => None,
    }
}

} // verus!
