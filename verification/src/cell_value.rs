//! The interface between a table and the values in its cells.

use vstd::prelude::*;
use crate::error::{outcome_view, RenderError};

verus! {

/// A value that a table cell can show. Each type names the options that
/// steer its rendering, so that code written once against this trait is
/// resolved per type when it is compiled.
pub trait CellValue: Sized {
    /// The options that steer the rendering of this type. They have a default,
    /// for a cell that is given none.
    type RenderOptions: Default;

    /// What rendering the value under `options` yields: the text, or the
    /// reason why there is none.
    spec fn rendering(&self, options: &Self::RenderOptions) -> Result<Seq<char>, RenderError>;

    /// Renders the value under `options`.
    fn render_value(self, options: &Self::RenderOptions) -> (outcome: Result<String, RenderError>)
        ensures
            outcome_view(outcome) == self.rendering(options),
    ;
}

} // verus!
