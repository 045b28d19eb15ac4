//! Calendar dates combined with a time of day.

use vstd::prelude::*;
use crate::backend::{date_time_formatted, date_time_to_string, format_date_time};
use crate::cell_value::CellValue;
use crate::date::{date_text, CalendarDate, DateView};
use crate::error::{accept_formatted, outcome_of_formatted, RenderError};
use crate::options::RenderChronoOptions;
use crate::time::{time_text, TimeOfDay, TimeView};

verus! {

/// A date and a time as their numbers.
pub struct DateTimeView {
    pub date: DateView,
    pub time: TimeView,
}

impl DateTimeView {
    /// Whether both the date and the time exist.
    pub open spec fn valid(self) -> bool {
        self.date.valid() && self.time.valid()
    }
}

/// The canonical text of a date and a time: that of the date, a space, and
/// that of the time.
pub open spec fn date_time_text(date_time: DateTimeView) -> Seq<char> {
    date_text(date_time.date) + seq![' '] + time_text(date_time.time)
}

/// A time of day on a day of the calendar, without a time zone.
#[derive(Clone, Copy, Debug, PartialEq, Eq)]
pub struct CalendarDateTime {
    pub(crate) date: CalendarDate,
    pub(crate) time: TimeOfDay,
}

impl View for CalendarDateTime {
    type V = DateTimeView;

    closed spec fn view(&self) -> DateTimeView {
        DateTimeView { date: self.date@, time: self.time@ }
    }
}

impl CalendarDateTime {
    /// Whether both parts exist. Every value that code holds is valid; of
    /// one that a proof merely speaks of, this says so.
    #[verifier::type_invariant]
    pub open spec fn valid(&self) -> bool {
        self@.valid()
    }

    /// The given time on the given day.
    pub fn new(date: CalendarDate, time: TimeOfDay) -> (date_time: CalendarDateTime)
        ensures
            date_time@ == (DateTimeView { date: date@, time: time@ }),
    {
        proof {
            use_type_invariant(&date);
            use_type_invariant(&time);
        }
        CalendarDateTime { date, time }
    }

    /// The day.
    pub fn date(&self) -> (date: CalendarDate)
        ensures
            date@ == self@.date,
    {
        self.date
    }

    /// The time on that day.
    pub fn time(&self) -> (time: TimeOfDay)
        ensures
            time@ == self@.time,
    {
        self.time
    }
}

impl CellValue for CalendarDateTime {
    type RenderOptions = RenderChronoOptions;

    /// Under a pattern, what the formatter makes of the date and time;
    /// without one, the canonical text.
    open spec fn rendering(&self, options: &RenderChronoOptions) -> Result<Seq<char>, RenderError> {
        match options@ {
            Some(pattern) => outcome_of_formatted(date_time_formatted(self@, pattern)),
            None => Ok(date_time_text(self@)),
        }
    }

    fn render_value(self, options: &RenderChronoOptions) -> (outcome: Result<String, RenderError>) {
        proof {
            use_type_invariant(&self);
        }
        match &options.string {
            Some(pattern) => accept_formatted(format_date_time(&self, pattern.as_str())),
            None => Ok(date_time_to_string(&self)),
        }
    }
}

} // verus!
