//! Source positions.
use vstd::prelude::*;

verus! {

/// A half-open range of source positions `[lo, hi)`.
///
/// Positions count the characters of the source text from its start.
#[derive(Clone, Copy, PartialEq, Eq, Structural, Debug, Hash)]
pub struct Span {
    pub lo: usize,
    pub hi: usize,
}

impl Span {
    /// Builds the span `[lo, hi)`; the bounds must be ordered.
    pub fn new_with_checked(lo: usize, hi: usize) -> (s: Span)
        requires
            lo <= hi,
        ensures
            s == (Span { lo, hi }),
    {
        Span { lo, hi }
    }

    /// The end of the span.
    pub fn span_hi(&self) -> (h: usize)
        ensures
            h == self.hi,
    {
        self.hi
    }
}

} // verus!
