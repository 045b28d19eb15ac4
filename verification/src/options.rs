use vstd::prelude::*;

verus! {

/// Options for rendering a temporal value.
pub struct RenderChronoOptions {
    /// A format pattern in the formatter's strftime-like syntax. `None` asks
    /// for the value's canonical text. The pattern is not inspected here: an
    /// empty one is a pattern like any other.
    pub string: Option<String>,
}

impl View for RenderChronoOptions {
    type V = Option<Seq<char>>;

    /// The pattern as a sequence of characters, where one is set.
    open spec fn view(&self) -> Option<Seq<char>> {
        match self.string {
            Some(pattern) => Some(pattern@),
            None => None,
        }
    }
}

impl RenderChronoOptions {
    /// Options that ask for `pattern`.
    pub fn with_pattern(pattern: String) -> (options: Self)
        ensures
            options.string == Some(pattern),
            options@ == Some(pattern@),
    {
        RenderChronoOptions { string: Some(pattern) }
    }
}

impl Default for RenderChronoOptions {
    /// Options without a pattern.
    fn default() -> (options: Self)
        ensures
            options.string is None,
            options@ is None,
    {
        RenderChronoOptions { string: None }
    }
}

} // verus!
