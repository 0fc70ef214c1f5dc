use vstd::prelude::*;

verus! {

/// A half-open range of positions in the pattern source, measured in UTF-16
/// code units and shifted by the configured base offset.
#[derive(Clone, Copy, Debug, PartialEq, Eq, Structural)]
pub struct Span {
    pub start: usize,
    pub end: usize,
}

impl Span {
    /// The span that stretches from the start of `self` to the end of
    /// `other`.
    pub fn merge(&self, other: &Span) -> (r: Span)
        ensures
            r.start == self.start,
            r.end == other.end,
    {
        Span { start: self.start, end: other.end }
    }
}

/// Builds spans from a pair of span positions, shifting both by a fixed base
/// offset so that a pattern embedded in a larger source file reports
/// positions relative to that file.
#[derive(Clone, Copy, Debug, PartialEq, Eq, Structural)]
pub struct SpanFactory {
    pub span_offset: usize,
}

impl SpanFactory {
    pub fn new(span_offset: usize) -> (r: SpanFactory)
        ensures
            r.span_offset == span_offset,
    {
        SpanFactory { span_offset }
    }

    /// The span `(start, end)`, both ends shifted by the base offset.
    pub fn create(&self, start: usize, end: usize) -> (r: Span)
        requires
            start <= end,
            self.span_offset + end <= usize::MAX,
        ensures
            r.start == self.span_offset + start,
            r.end == self.span_offset + end,
    {
        Span { start: self.span_offset + start, end: self.span_offset + end }
    }
}

} // verus!
