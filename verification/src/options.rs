use vstd::prelude::*;

verus! {

/// Configuration for one parse: which grammar variant to use and where the
/// pattern sits inside the surrounding source file.
#[derive(Clone, Copy, Debug, PartialEq, Eq, Structural)]
pub struct ParserOptions {
    /// Base offset added to every emitted span.
    pub span_offset: usize,
    /// The ECMAScript `u` flag: use the strict unicode-mode grammar.
    pub unicode_flag: bool,
    /// The ECMAScript `v` flag: unicode-sets mode, which implies the effects
    /// of the `u` flag.
    pub unicode_sets_flag: bool,
}

impl Default for ParserOptions {
    /// Annex B grammar, spans starting at zero.
    fn default() -> (r: Self)
        ensures
            r.span_offset == 0,
            !r.unicode_flag,
            !r.unicode_sets_flag,
    {
        ParserOptions { span_offset: 0, unicode_flag: false, unicode_sets_flag: false }
    }
}

impl ParserOptions {
    /// The same options with the given span offset.
    pub fn with_span_offset(self, span_offset: usize) -> (r: Self)
        ensures
            r == (ParserOptions { span_offset, ..self }),
    {
        ParserOptions { span_offset, ..self }
    }

    /// The same options with the `u` flag set as given.
    pub fn with_unicode_flag(self, unicode_flag: bool) -> (r: Self)
        ensures
            r == (ParserOptions { unicode_flag, ..self }),
    {
        ParserOptions { unicode_flag, ..self }
    }

    /// The same options with the `v` flag set as given.
    pub fn with_unicode_sets_flag(self, unicode_sets_flag: bool) -> (r: Self)
        ensures
            r == (ParserOptions { unicode_sets_flag, ..self }),
    {
        ParserOptions { unicode_sets_flag, ..self }
    }
}

} // verus!
