//! The line store: the ordered sequence of text lines that makes up the
//! document, with 1-based indexing as the commands address it.
//!
//! Its mathematical model is a sequence of character sequences, one per
//! line.  All mutation is by whole-line insertion and deletion; bounds are
//! the caller's obligation, stated as preconditions, while the query
//! methods let a caller test them first.

use vstd::prelude::*;

use crate::pos::ResolvedRange;

verus! {

/// An ordered sequence of text lines, addressed 1-based.
#[derive(Debug)]
pub struct Buffer {
    lines: Vec<String>,
}

impl View for Buffer {
    type V = Seq<Seq<char>>;

    closed spec fn view(&self) -> Seq<Seq<char>> {
        self.lines.deep_view()
    }
}

/// Lines copied one-for-one out of a store view the same as the span they
/// came from.
proof fn lemma_deep_view_of_subrange(out: Vec<String>, buf: Buffer, lo: int, hi: int)
    requires
        0 <= lo <= hi <= buf.lines@.len(),
        out@ == buf.lines@.subrange(lo, hi),
    ensures
        out.deep_view() == buf@.subrange(lo, hi),
{
    assert forall|k: int| 0 <= k < out@.len() implies out.deep_view()[k] == buf@.subrange(lo, hi)[k] by {
        assert(out@[k] == buf.lines@[lo + k]);
        assert(buf@[lo + k] == buf.lines@[lo + k]@);
    }
    assert(out.deep_view() =~= buf@.subrange(lo, hi));
}

impl Buffer {
    /// An empty store.
    pub fn new() -> (r: Buffer)
        ensures
            r@ == Seq::<Seq<char>>::empty(),
    {
        let b = Buffer { lines: Vec::new() };
        proof {
            assert(b@ =~= Seq::<Seq<char>>::empty());
        }
        b
    }

    /// Build a store from already-collected lines, e.g. the lines of a file.
    pub fn from_lines(lines: Vec<String>) -> (r: Buffer)
        ensures
            r@ == lines.deep_view(),
    {
        Buffer { lines }
    }

    /// How many lines the store holds.
    pub fn len(&self) -> (n: usize)
        ensures
            n == self@.len(),
    {
        self.lines.len()
    }

    /// Append one line at the end of the store.
    pub fn add_line(&mut self, line: String)
        ensures
            final(self)@ == old(self)@.push(line@),
    {
        self.lines.push(line);
        proof {
            assert(self@ =~= old(self)@.push(line@));
        }
    }

    /// Read the line at 1-based index `i`.
    pub fn line(&self, i: usize) -> (r: &String)
        requires
            1 <= i <= self@.len(),
        ensures
            r@ == self@[i - 1],
    {
        &self.lines[i - 1]
    }

    /// Copy the inclusive span `start..=end` of lines (1-based) out of the
    /// store, in order.
    pub fn line_range(&self, start: usize, end: usize) -> (r: Vec<String>)
        requires
            1 <= start <= end <= self@.len(),
        ensures
            r.deep_view() == self@.subrange(start - 1, end as int),
    {
        let mut out: Vec<String> = Vec::new();
        let mut i: usize = start - 1;
        while i < end
            invariant
                1 <= start,
                start - 1 <= i <= end <= self.lines@.len(),
                out@ =~= self.lines@.subrange(start - 1, i as int),
            decreases end - i,
        {
            out.push(self.lines[i].clone());
            i = i + 1;
            proof {
                assert(out@ =~= self.lines@.subrange(start - 1, i as int));
            }
        }
        proof {
            lemma_deep_view_of_subrange(out, *self, start - 1, end as int);
        }
        out
    }

    /// Copy every line out of the store, in order.
    pub fn all_lines(&self) -> (r: Vec<String>)
        ensures
            r.deep_view() == self@,
    {
        let mut out: Vec<String> = Vec::new();
        let mut i: usize = 0;
        while i < self.lines.len()
            invariant
                0 <= i <= self.lines@.len(),
                out@ =~= self.lines@.subrange(0, i as int),
            decreases self.lines@.len() - i,
        {
            out.push(self.lines[i].clone());
            i = i + 1;
            proof {
                assert(out@ =~= self.lines@.subrange(0, i as int));
            }
        }
        proof {
            lemma_deep_view_of_subrange(out, *self, 0, self.lines@.len() as int);
            assert(self@.subrange(0, self.lines@.len() as int) =~= self@);
        }
        out
    }

    /// Insert every line of `buf` into the store so that the first inserted
    /// line becomes line `at`; the former line `at` and everything after it
    /// shift past the inserted block.  `at == len + 1` appends at the end.
    pub fn insert_buffer(&mut self, at: usize, buf: Buffer)
        requires
            1 <= at <= old(self)@.len() + 1,
        ensures
            final(self)@ == old(self)@.take(at - 1) + buf@ + old(self)@.skip(at - 1),
    {
        let mut rest = self.lines.split_off(at - 1);
        let mut mid = buf.lines;
        self.lines.append(&mut mid);
        self.lines.append(&mut rest);
        proof {
            assert(self@ =~= old(self)@.take(at - 1) + buf@ + old(self)@.skip(at - 1));
        }
    }

    /// Delete the inclusive span `start..=end` of lines (1-based).
    pub fn delete_lines(&mut self, start: usize, end: usize)
        requires
            1 <= start <= end <= old(self)@.len(),
        ensures
            final(self)@ == old(self)@.take(start - 1) + old(self)@.skip(end as int),
    {
        let mut rest = self.lines.split_off(end);
        let _deleted = self.lines.split_off(start - 1);
        self.lines.append(&mut rest);
        proof {
            assert(self@ =~= old(self)@.take(start - 1) + old(self)@.skip(end as int));
        }
    }

    /// Whether 1-based index `i` names no line of the store.
    pub fn is_out_of_bounds(&self, i: usize) -> (r: bool)
        ensures
            r == !(1 <= i <= self@.len()),
    {
        i == 0 || i > self.lines.len()
    }

    /// Whether the resolved span names lines outside the store, or is
    /// reversed (start past end); reversed spans are rejected, not swapped.
    pub fn is_range_out_of_bounds(&self, range: &ResolvedRange) -> (r: bool)
        ensures
            r == !(1 <= range.start && range.start <= range.end && range.end <= self@.len()),
    {
        range.start == 0 || range.start > range.end || range.end > self.lines.len()
    }
}
} // verus!
