//! What holds of every rendering, whatever the value and the options.

use vstd::prelude::*;
use crate::backend::{date_formatted, date_time_formatted, time_formatted};
use crate::cell_value::CellValue;
use crate::date::{date_text, CalendarDate};
use crate::datetime::{date_time_text, CalendarDateTime};
use crate::error::{outcome_of_formatted, outcome_view, RenderError};
use crate::options::RenderChronoOptions;
use crate::time::{time_text, TimeOfDay};

verus! {

/// Without a pattern, a value of each type is rendered as its canonical
/// text, and rendering cannot fail.
pub proof fn lemma_no_pattern_gives_canonical_text(
    date: CalendarDate,
    time: TimeOfDay,
    date_time: CalendarDateTime,
    options: RenderChronoOptions,
)
    requires
        options@ is None,
    ensures
        date.rendering(&options) == Ok::<Seq<char>, RenderError>(date_text(date@)),
        time.rendering(&options) == Ok::<Seq<char>, RenderError>(time_text(time@)),
        date_time.rendering(&options) == Ok::<Seq<char>, RenderError>(date_time_text(date_time@)),
{
}

/// Under a pattern that the formatter can apply to the value, the rendering
/// is the formatter's text, character for character.
pub proof fn lemma_accepted_pattern_gives_formatter_text(
    date: CalendarDate,
    time: TimeOfDay,
    date_time: CalendarDateTime,
    options: RenderChronoOptions,
    pattern: Seq<char>,
)
    requires
        options@ == Some(pattern),
    ensures
        date_formatted(date@, pattern) matches Some(text) ==> date.rendering(&options) == Ok::<
            Seq<char>,
            RenderError,
        >(text),
        time_formatted(time@, pattern) matches Some(text) ==> time.rendering(&options) == Ok::<
            Seq<char>,
            RenderError,
        >(text),
        date_time_formatted(date_time@, pattern) matches Some(text) ==> date_time.rendering(
            &options,
        ) == Ok::<Seq<char>, RenderError>(text),
{
}

/// Under a pattern that the formatter cannot apply to the value, the
/// rendering is an error, and never a text.
pub proof fn lemma_rejected_pattern_gives_error(
    date: CalendarDate,
    time: TimeOfDay,
    date_time: CalendarDateTime,
    options: RenderChronoOptions,
    pattern: Seq<char>,
)
    requires
        options@ == Some(pattern),
    ensures
        date_formatted(date@, pattern) is None ==> date.rendering(&options) == Err::<
            Seq<char>,
            RenderError,
        >(RenderError::InvalidPattern),
        time_formatted(time@, pattern) is None ==> time.rendering(&options) == Err::<
            Seq<char>,
            RenderError,
        >(RenderError::InvalidPattern),
        date_time_formatted(date_time@, pattern) is None ==> date_time.rendering(&options) == Err::<
            Seq<char>,
            RenderError,
        >(RenderError::InvalidPattern),
{
}

/// An empty pattern is a pattern: the rendering is what the formatter makes
/// of it, not the canonical text.
pub proof fn lemma_empty_pattern_is_forwarded(
    date: CalendarDate,
    time: TimeOfDay,
    date_time: CalendarDateTime,
    options: RenderChronoOptions,
)
    requires
        options@ == Some(Seq::<char>::empty()),
    ensures
        date.rendering(&options) == outcome_of_formatted(
            date_formatted(date@, Seq::<char>::empty()),
        ),
        time.rendering(&options) == outcome_of_formatted(
            time_formatted(time@, Seq::<char>::empty()),
        ),
        date_time.rendering(&options) == outcome_of_formatted(
            date_time_formatted(date_time@, Seq::<char>::empty()),
        ),
{
}

/// Rendering is a function of the value and the options: two outcomes of
/// `render_value` for the same value under the same options are the same,
/// for every type of cell value.
pub proof fn lemma_rendering_is_repeatable<T: CellValue>(
    value: T,
    options: T::RenderOptions,
    first: Result<String, RenderError>,
    second: Result<String, RenderError>,
)
    requires
        outcome_view(first) == value.rendering(&options),
        outcome_view(second) == value.rendering(&options),
    ensures
        outcome_view(first) == outcome_view(second),
{
}

} // verus!
