use crate::types::token::Token;
use vstd::prelude::*;

verus! {

/// The source interval a syntax node covers.
///
/// - `start`: byte offset of its beginning
/// - `end`: byte offset of its end
#[derive(Debug, Clone, Copy, PartialEq, Eq, Structural)]
pub struct Span {
    pub start: usize,
    pub end: usize,
}

/// The smallest span that covers both `a` and `b`.
pub open spec fn spec_merge(a: Span, b: Span) -> Span {
    Span {
        start: if a.start <= b.start { a.start } else { b.start },
        end: if a.end >= b.end { a.end } else { b.end },
    }
}

/// `outer` covers `inner`.
pub open spec fn covers(outer: Span, inner: Span) -> bool {
    outer.start <= inner.start && inner.end <= outer.end
}

impl Span {
    /// A span from `start` to `end`.
    pub fn new(start: usize, end: usize) -> (r: Span)
        requires
            start <= end,
        ensures
            r.start == start,
            r.end == end,
    {
        Span { start, end }
    }

    /// The span of one token.
    pub fn from_token(token: &Token) -> (r: Span)
        ensures
            r.start == token.beg,
            r.end == token.end,
    {
        Span { start: token.beg, end: token.end }
    }

    /// The span from the first token to the last; the tokens are taken to
    /// be in source order, and only the two ends are read.
    pub fn from_tokens(tokens: Vec<&Token>) -> (r: Span)
        requires
            tokens.len() > 0,
        ensures
            r.start == tokens[0].beg,
            r.end == tokens[tokens.len() - 1].end,
    {
        let first = tokens[0].beg;
        let last = tokens[tokens.len() - 1].end;
        Span { start: first, end: last }
    }

    /// The smallest span covering this one and `other`.
    pub fn merge(&self, other: &Span) -> (r: Span)
        ensures
            r == spec_merge(*self, *other),
    {
        Span {
            start: if self.start <= other.start { self.start } else { other.start },
            end: if self.end >= other.end { self.end } else { other.end },
        }
    }

    /// Widens this span to cover `other` too.
    pub fn merge_self(&mut self, other: &Span)
        ensures
            *final(self) == spec_merge(*old(self), *other),
    {
        self.start = if self.start <= other.start { self.start } else { other.start };
        self.end = if self.end >= other.end { self.end } else { other.end };
    }
}

/// Merging spans does not depend on their order.
pub proof fn lemma_merge_commutative(a: Span, b: Span)
    ensures
        spec_merge(a, b) == spec_merge(b, a),
{
}

/// Merging spans can be grouped either way.
pub proof fn lemma_merge_associative(a: Span, b: Span, c: Span)
    ensures
        spec_merge(spec_merge(a, b), c) == spec_merge(a, spec_merge(b, c)),
{
}

/// Merging a span with itself gives it back.
pub proof fn lemma_merge_idempotent(a: Span)
    ensures
        spec_merge(a, a) == a,
{
}

/// The merge of two well-formed spans is well formed, covers both, and is
/// covered by every span that covers both.
pub proof fn lemma_merge_least_cover(a: Span, b: Span, c: Span)
    requires
        a.start <= a.end,
        b.start <= b.end,
    ensures
        spec_merge(a, b).start <= spec_merge(a, b).end,
        covers(spec_merge(a, b), a),
        covers(spec_merge(a, b), b),
        covers(c, a) && covers(c, b) ==> covers(c, spec_merge(a, b)),
{
}

/// A value between two delimiting tokens, such as `(A)` or `[X]`.
#[derive(Debug, Clone)]
pub struct Delim<T> {
    pub l: Span,
    pub inner: T,
    pub r: Span,
}

impl<T> Delim<T> {
    /// Wraps `inner` with the spans of its two delimiters.
    pub fn new(l: &Token, inner: T, r: &Token) -> (d: Self)
        ensures
            d.l == Span::from_token_spec(l),
            d.r == Span::from_token_spec(r),
            d.inner == inner,
    {
        Self { l: Span::from_token(l), inner, r: Span::from_token(r) }
    }
}

impl Span {
    /// The span of one token.
    pub open spec fn from_token_spec(token: &Token) -> Span {
        Span { start: token.beg, end: token.end }
    }
}

/// A list with separators, such as `a, b, c` or `a; b; c;`: the items and
/// the spans of the separators.
#[derive(Debug, Clone)]
pub struct SepList<T> {
    pub list: Vec<T>,
    pub sep: Vec<Span>,
}

impl<T> SepList<T> {
    /// A list of one item and no separator.
    pub fn new(item: T) -> (r: Self)
        ensures
            r.list@ == seq![item],
            r.sep@ == Seq::<Span>::empty(),
    {
        Self { list: vec![item], sep: Vec::new() }
    }

    /// Appends an item.
    pub fn push_item(&mut self, item: T)
        ensures
            final(self).list@ == old(self).list@.push(item),
            final(self).sep@ == old(self).sep@,
    {
        self.list.push(item);
    }

    /// Appends the span of a separator.
    pub fn push_sep(&mut self, sep: Span)
        ensures
            final(self).list@ == old(self).list@,
            final(self).sep@ == old(self).sep@.push(sep),
    {
        self.sep.push(sep);
    }
}

impl<T> Default for SepList<T> {
    fn default() -> (r: Self)
        ensures
            r.list@ == Seq::<T>::empty(),
            r.sep@ == Seq::<Span>::empty(),
    {
        Self { list: Vec::new(), sep: Vec::new() }
    }
}

/// Anything that covers a source interval.
pub trait UnwrapSpan {
    fn unwrap_span(&self) -> Span;
}

} // verus!
