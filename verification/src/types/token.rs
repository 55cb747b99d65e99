use vstd::prelude::*;

verus! {

/// The value a token carries.
///
/// A floating constant is held as the bit pattern of its IEEE-754 double.
#[derive(Debug, Clone)]
pub enum TokenValue {
    Number { value: usize, signed: bool },
    Float(u64),
    String(String),
    Char(u8),
    Other,
}

/// A token produced by the lexer.
///
/// - `beg`, `end`: the source offsets it covers
/// - `typ`: its token type, as a number
/// - `value`: what it carries
#[derive(Debug, Clone)]
pub struct Token {
    pub beg: usize,
    pub end: usize,
    pub typ: usize,
    pub value: TokenValue,
}

/// The token number that marks the end of input.
pub const END_SYMBOL: usize = 0;

impl Token {
    /// The token that marks the end of input.
    pub fn end_token() -> (r: Token)
        ensures
            r.beg == 0,
            r.end == 0,
            r.typ == END_SYMBOL,
            r.value is Other,
    {
        Token { beg: 0, end: 0, typ: END_SYMBOL, value: TokenValue::Other }
    }

    /// Whether the token has type number `typ`.
    pub fn is(&self, typ: usize) -> (r: bool)
        ensures
            r == (self.typ == typ),
    {
        self.typ == typ
    }

    /// Whether the parser skips the token: a block comment, a line comment
    /// or white space, given the type numbers of those three kinds.
    pub fn ignore(&self, block_comment: usize, line_comment: usize, whitespace: usize) -> (r: bool)
        ensures
            r == (self.typ == block_comment || self.typ == line_comment || self.typ == whitespace),
    {
        self.typ == block_comment || self.typ == line_comment || self.typ == whitespace
    }
}

} // verus!
