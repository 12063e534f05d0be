//! Source positions carried by syntax nodes and reported in errors.

use vstd::prelude::*;

verus! {

/// A half-open region of the source text, kept only so that errors can point
/// back at the node they concern.
#[derive(Clone, Copy, PartialEq, Eq, Structural, Debug)]
pub struct Span {
    pub start: u64,
    pub end: u64,
}

impl Span {
    /// A span for nodes that were not read from source text.
    pub fn unknown() -> (r: Span)
        ensures
            r == (Span { start: 0u64, end: 0u64 }),
    {
        Span { start: 0, end: 0 }
    }

    pub fn new(start: u64, end: u64) -> (r: Span)
        ensures
            r == (Span { start, end }),
    {
        Span { start, end }
    }
}

} // verus!
