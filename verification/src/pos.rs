//! Symbolic line addresses and their resolution against editor state.
//!
//! A `Pos` names one line of the document before resolution: an absolute
//! line number, the current line, or the last line.  A `Range` is a pair of
//! such addresses denoting an inclusive span.  Resolution turns them into
//! concrete 1-based indices, given the cursor and the store length; it never
//! fails, and out-of-bounds detection is left to the consuming command.

use vstd::prelude::*;

verus! {

/// A symbolic line address: an absolute line number (1-based, positive),
/// the current line, or the last line of the store.
#[derive(Clone, Copy, Debug, PartialEq, Eq, Structural)]
pub enum Pos {
    Line(usize),
    Current,
    End,
}

/// An inclusive span of lines, addressed symbolically.
#[derive(Clone, Copy, Debug, PartialEq, Eq, Structural)]
pub struct Range {
    pub start: Pos,
    pub end: Pos,
}

/// A span after resolution: concrete 1-based line indices.
/// `start > end` is representable and is rejected by the commands
/// that consume it, never silently swapped.
#[derive(Clone, Copy, Debug, PartialEq, Eq, Structural)]
pub struct ResolvedRange {
    pub start: usize,
    pub end: usize,
}

impl Pos {
    /// A line number must be positive; `Current` and `End` carry nothing.
    pub open spec fn wf(self) -> bool {
        match self {
            Pos::Line(n) => n >= 1,
            _ => true,
        }
    }
}

impl Range {
    pub open spec fn wf(self) -> bool {
        self.start.wf() && self.end.wf()
    }

    /// The default range when the input gives none: the current line alone.
    pub fn current_line() -> (r: Range)
        ensures
            r == spec_current_line(),
    {
        Range { start: Pos::Current, end: Pos::Current }
    }

}

pub open spec fn spec_current_line() -> Range {
    Range { start: Pos::Current, end: Pos::Current }
}

/// What `resolve_position` returns, as a function of its arguments alone.
pub open spec fn spec_resolve_position(pos: Pos, cursor: usize, store_len: usize) -> usize {
    match pos {
        Pos::Line(n) => n,
        Pos::Current => cursor,
        Pos::End => store_len,
    }
}

/// What `resolve_range` returns, as a function of its arguments alone.
pub open spec fn spec_resolve_range(range: Range, cursor: usize, store_len: usize) -> ResolvedRange {
    ResolvedRange {
        start: spec_resolve_position(range.start, cursor, store_len),
        end: spec_resolve_position(range.end, cursor, store_len),
    }
}

/// Resolve one symbolic address to a concrete 1-based index.
/// `Line(n)` resolves to `n`, `Current` to the cursor, `End` to the store
/// length.  No failure path: any value is returned even if it lies outside
/// the store; the consuming command checks bounds.
pub fn resolve_position(pos: &Pos, cursor: usize, store_len: usize) -> (r: usize)
    ensures
        r == spec_resolve_position(*pos, cursor, store_len),
        pos is Line ==> r == pos->Line_0,
        pos is Current ==> r == cursor,
        pos is End ==> r == store_len,
{
    match *pos {
        Pos::Line(n) => n,
        Pos::Current => cursor,
        Pos::End => store_len,
    }
}

/// Resolve both ends of a range.  No reordering: a resolved range whose
/// start exceeds its end is returned as is, for the consumer to reject.
pub fn resolve_range(range: &Range, cursor: usize, store_len: usize) -> (r: ResolvedRange)
    ensures
        r == spec_resolve_range(*range, cursor, store_len),
{
    ResolvedRange {
        start: resolve_position(&range.start, cursor, store_len),
        end: resolve_position(&range.end, cursor, store_len),
    }
}

/// Resolution is a pure function of the address, the cursor and the store
/// length: resolving the same range against the same state twice gives the
/// same result.  Both exec resolvers return exactly the value of their spec
/// function, so any two results for equal inputs coincide.
pub proof fn lemma_resolution_idempotent(
    range: Range,
    cursor: usize,
    store_len: usize,
    r1: ResolvedRange,
    r2: ResolvedRange,
)
    requires
        r1 == spec_resolve_range(range, cursor, store_len),
        r2 == spec_resolve_range(range, cursor, store_len),
    ensures
        r1 == r2,
{
}

} // verus!
