//! Times of day.

use vstd::prelude::*;
use crate::backend::{format_time, time_formatted, time_to_string};
use crate::cell_value::CellValue;
use crate::error::{accept_formatted, outcome_of_formatted, RenderError};
use crate::options::RenderChronoOptions;
use crate::text::zero_padded;

verus! {

/// The nanoseconds in a second.
pub const NANOS_PER_SECOND: u32 = 1_000_000_000;

/// Whether the four numbers name a time of day. A nanosecond part of a
/// whole second or more stands for a leap second, which may follow any
/// second.
pub open spec fn valid_time(hour: int, minute: int, second: int, nanosecond: int) -> bool {
    &&& 0 <= hour < 24
    &&& 0 <= minute < 60
    &&& 0 <= second < 60
    &&& 0 <= nanosecond < 2 * NANOS_PER_SECOND
}

/// A time of day as its four numbers.
pub struct TimeView {
    pub hour: int,
    pub minute: int,
    pub second: int,
    pub nanosecond: int,
}

impl TimeView {
    /// Whether the four numbers name a time that exists.
    pub open spec fn valid(self) -> bool {
        valid_time(self.hour, self.minute, self.second, self.nanosecond)
    }
}

/// The fraction of a second in text: nothing for zero, else a point and
/// three, six or nine digits, the fewest that lose nothing.
pub open spec fn fraction_text(nanosecond: int) -> Seq<char> {
    if nanosecond == 0 {
        Seq::<char>::empty()
    } else if nanosecond % 1_000_000 == 0 {
        seq!['.'] + zero_padded((nanosecond / 1_000_000) as nat, 3)
    } else if nanosecond % 1_000 == 0 {
        seq!['.'] + zero_padded((nanosecond / 1_000) as nat, 6)
    } else {
        seq!['.'] + zero_padded(nanosecond as nat, 9)
    }
}

/// The second that the text of a time shows: one more within a leap second,
/// so 60 after second 59.
pub open spec fn shown_second(time: TimeView) -> int {
    if time.nanosecond >= NANOS_PER_SECOND {
        time.second + 1
    } else {
        time.second
    }
}

/// The nanoseconds that the text of a time shows: those past the whole
/// second, within a leap second too.
pub open spec fn shown_nanosecond(time: TimeView) -> int {
    if time.nanosecond >= NANOS_PER_SECOND {
        time.nanosecond - NANOS_PER_SECOND
    } else {
        time.nanosecond
    }
}

/// The canonical text of a time of day: hour, minute and second in two
/// digits each, with `:` between, then the fraction of the second.
pub open spec fn time_text(time: TimeView) -> Seq<char> {
    zero_padded(time.hour as nat, 2) + seq![':'] + zero_padded(time.minute as nat, 2) + seq![':']
        + zero_padded(shown_second(time) as nat, 2) + fraction_text(shown_nanosecond(time))
}

/// A time of day: hour, minute, second and nanosecond. Every value is a
/// time that exists.
#[derive(Clone, Copy, Debug, PartialEq, Eq)]
pub struct TimeOfDay {
    pub(crate) hour: u32,
    pub(crate) minute: u32,
    pub(crate) second: u32,
    pub(crate) nanosecond: u32,
}

impl View for TimeOfDay {
    type V = TimeView;

    closed spec fn view(&self) -> TimeView {
        TimeView {
            hour: self.hour as int,
            minute: self.minute as int,
            second: self.second as int,
            nanosecond: self.nanosecond as int,
        }
    }
}

impl TimeOfDay {
    /// Whether the time exists. Every time that code holds does; of a time
    /// that a proof merely speaks of, this says so.
    #[verifier::type_invariant]
    pub open spec fn valid(&self) -> bool {
        self@.valid()
    }

    /// The time of the given hour, minute, second and nanosecond, or `None`
    /// where the day has no such time.
    pub fn new(hour: u32, minute: u32, second: u32, nanosecond: u32) -> (time: Option<TimeOfDay>)
        ensures
            time is Some <==> valid_time(
                hour as int,
                minute as int,
                second as int,
                nanosecond as int,
            ),
            time matches Some(t) ==> t@ == (TimeView {
                hour: hour as int,
                minute: minute as int,
                second: second as int,
                nanosecond: nanosecond as int,
            }),
    {
        if hour >= 24 || minute >= 60 || second >= 60 {
            return None;
        }
        if nanosecond >= 2 * NANOS_PER_SECOND {
            return None;
        }
        Some(TimeOfDay { hour, minute, second, nanosecond })
    }

    /// The hour, from 0.
    pub fn hour(&self) -> (hour: u32)
        ensures
            hour == self@.hour,
            hour < 24,
    {
        proof {
            use_type_invariant(self);
        }
        self.hour
    }

    /// The minute of the hour.
    pub fn minute(&self) -> (minute: u32)
        ensures
            minute == self@.minute,
            minute < 60,
    {
        proof {
            use_type_invariant(self);
        }
        self.minute
    }

    /// The second of the minute; within a leap second, the one before it.
    pub fn second(&self) -> (second: u32)
        ensures
            second == self@.second,
            second < 60,
    {
        proof {
            use_type_invariant(self);
        }
        self.second
    }

    /// The nanoseconds past the second, a whole second more within a leap
    /// second.
    pub fn nanosecond(&self) -> (nanosecond: u32)
        ensures
            nanosecond == self@.nanosecond,
            nanosecond < 2 * NANOS_PER_SECOND,
    {
        proof {
            use_type_invariant(self);
        }
        self.nanosecond
    }
}

impl CellValue for TimeOfDay {
    type RenderOptions = RenderChronoOptions;

    /// Under a pattern, what the formatter makes of the time; without one,
    /// the canonical text.
    open spec fn rendering(&self, options: &RenderChronoOptions) -> Result<Seq<char>, RenderError> {
        match options@ {
            Some(pattern) => outcome_of_formatted(time_formatted(self@, pattern)),
            None => Ok(time_text(self@)),
        }
    }

    fn render_value(self, options: &RenderChronoOptions) -> (outcome: Result<String, RenderError>) {
        proof {
            use_type_invariant(&self);
        }
        match &options.string {
            Some(pattern) => accept_formatted(format_time(&self, pattern.as_str())),
            None => Ok(time_to_string(&self)),
        }
    }
}

} // verus!
