use crate::types::token::Token;
use vstd::prelude::*;

verus! {

/// The source interval a syntax node covers.
///
/// - `start`: byte offset of its beginning
/// - `end`: byte offset of its end (not included)
#[derive(Debug, Clone, Copy, PartialEq, Eq, Structural)]
pub struct Span {
    pub start: usize,
    pub end: usize,
}

/// The smallest span that covers both `a` and `b`.
pub open spec fn spec_merge(a: Span, b: Span) -> Span {
    Span {
        start: if a.start <= b.start { a.start } else { b.start },
        end: if a.end >= b.end { a.end } else { b.end },
    }
}

impl Span {
    /// A span from `start` to `end`.
    pub fn new(start: usize, end: usize) -> (r: Span)
        requires
            start <= end,
        ensures
            r.start == start,
            r.end == end,
    {
        Span { start, end }
    }

    /// The span of one token.
    pub fn from_token(token: &Token) -> (r: Span)
        ensures
            r.start == token.beg,
            r.end == token.end,
    {
        Span { start: token.beg, end: token.end }
    }

    /// Number of bytes covered.
    pub fn len(&self) -> (r: usize)
        requires
            self.start <= self.end,
        ensures
            r == self.end - self.start,
    {
        self.end - self.start
    }

    /// The smallest span covering this one and `other`.
    pub fn merge(&self, other: &Span) -> (r: Span)
        ensures
            r == spec_merge(*self, *other),
    {
        Span {
            start: if self.start <= other.start { self.start } else { other.start },
            end: if self.end >= other.end { self.end } else { other.end },
        }
    }

    /// Widens this span to cover `other` too.
    pub fn merge_self(&mut self, other: &Span)
        ensures
            *final(self) == spec_merge(*old(self), *other),
    {
        self.start = if self.start <= other.start { self.start } else { other.start };
        self.end = if self.end >= other.end { self.end } else { other.end };
    }
}

/// The merge of two well-formed spans is at least as long as either.
pub proof fn lemma_merge_len(a: Span, b: Span)
    requires
        a.start <= a.end,
        b.start <= b.end,
    ensures
        spec_merge(a, b).start <= spec_merge(a, b).end,
        spec_merge(a, b).end - spec_merge(a, b).start >= a.end - a.start,
        spec_merge(a, b).end - spec_merge(a, b).start >= b.end - b.start,
{
}

} // verus!
