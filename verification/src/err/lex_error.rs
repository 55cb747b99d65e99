use vstd::prelude::*;

verus! {

/// Errors the lexer reports; it recovers from each and goes on.
#[derive(Debug)]
pub enum LexError {
    /// A symbol that starts no token.
    InvalidToken { pos: usize, symbol: String },
    /// A string or character constant whose closing quote is missing.
    MissingTerminating { pos: usize, content: &'static str },
    /// A block comment that is never closed.
    UnterminatedComment { pos: usize },
}

} // verus!
