use vstd::prelude::*;

verus! {

/// The compiler: a source to read and the bound of the token queue between
/// the lexer and the parser.
pub struct CCompiler<R> {
    pub input: R,
    pub token_bound: usize,
}

impl<R> CCompiler<R> {
    /// A compiler reading `input`, with at most `token_bound` tokens in flight.
    pub fn new(input: R, token_bound: usize) -> (r: Self)
        ensures
            r.input == input,
            r.token_bound == token_bound,
    {
        Self { input, token_bound }
    }
}

} // verus!
