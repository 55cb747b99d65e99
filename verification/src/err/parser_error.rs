use crate::types::lex::token::Token;
use crate::types::span::Span;
use vstd::prelude::*;

verus! {

/// An error of the parser: where it happened, in which grammar rule, and
/// what went wrong.
#[derive(Debug)]
pub struct ParserError {
    pub span: Span,
    pub name: String,
    pub msg: String,
}

impl ParserError {
    /// An error at `span` with message `msg` in rule `name`.
    pub fn new(span: Span, msg: &str, name: &'static str) -> (r: Self)
        ensures
            r.span == span,
            r.msg@ == msg@,
            r.name@ == name@,
    {
        Self { span, msg: String::from_str(msg), name: String::from_str(name) }
    }

    /// The same error, starting at `pos`.
    pub fn with_pos(self, pos: usize) -> (r: Self)
        ensures
            r.span == (Span { start: pos, end: self.span.end }),
            r.name == self.name,
            r.msg == self.msg,
    {
        let mut e = self;
        e.span.start = pos;
        e
    }

    /// The same error, ending at `end`.
    pub fn with_line(self, end: usize) -> (r: Self)
        ensures
            r.span == (Span { start: self.span.start, end }),
            r.name == self.name,
            r.msg == self.msg,
    {
        let mut e = self;
        e.span.end = end;
        e
    }

    /// The same error, in rule `name`.
    pub fn with_name(self, name: &'static str) -> (r: Self)
        ensures
            r.span == self.span,
            r.name@ == name@,
            r.msg == self.msg,
    {
        let mut e = self;
        e.name = String::from_str(name);
        e
    }

    /// The same error, at the span of `token`.
    pub fn with_token(self, token: &Token) -> (r: Self)
        ensures
            r.span == token.span,
            r.name == self.name,
            r.msg == self.msg,
    {
        let mut e = self;
        e.span = token.span;
        e
    }

    /// The same error, with message `msg`.
    pub fn with_msg(self, msg: &'static str) -> (r: Self)
        ensures
            r.span == self.span,
            r.name == self.name,
            r.msg@ == msg@,
    {
        let mut e = self;
        e.msg = String::from_str(msg);
        e
    }
}

} // verus!
