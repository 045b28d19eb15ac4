//! The outcome of a rendering.

use vstd::prelude::*;

verus! {

/// Why a value could not be rendered.
#[derive(Clone, Copy, Debug, PartialEq, Eq, Structural)]
pub enum RenderError {
    /// The formatter could not apply the pattern to the value: the pattern
    /// holds a specifier the formatter does not know, or one that asks for a
    /// field the value does not have.
    InvalidPattern,
}

/// The outcome of a rendering, with the text as a sequence of characters.
pub open spec fn outcome_view(outcome: Result<String, RenderError>) -> Result<
    Seq<char>,
    RenderError,
> {
    match outcome {
        Ok(text) => Ok(text@),
        Err(e) => Err(e),
    }
}

/// What the formatter produced, with the text as a sequence of characters.
pub open spec fn formatted_view(formatted: Option<String>) -> Option<Seq<char>> {
    match formatted {
        Some(text) => Some(text@),
        None => None,
    }
}

/// The outcome that stands for what the formatter produced: its text, or
/// `InvalidPattern` where it produced none.
pub open spec fn outcome_of_formatted(formatted: Option<Seq<char>>) -> Result<Seq<char>, RenderError> {
    match formatted {
        Some(text) => Ok(text),
        None => Err(RenderError::InvalidPattern),
    }
}

/// Turns what the formatter produced into the outcome of the rendering: the
/// text is passed on untouched, a failure becomes `InvalidPattern`.
pub fn accept_formatted(formatted: Option<String>) -> (outcome: Result<String, RenderError>)
    ensures
        formatted matches Some(text) ==> outcome == Ok::<String, RenderError>(text),
        formatted is None ==> outcome == Err::<String, RenderError>(RenderError::InvalidPattern),
        outcome_view(outcome) == outcome_of_formatted(formatted_view(formatted)),
{
    match formatted {
        Some(text) => Ok(text),
        None => Err(RenderError::InvalidPattern),
    }
}

} // verus!
