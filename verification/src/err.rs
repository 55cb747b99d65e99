//! Errors of the lexer and the parser.

pub mod lex_error;
pub mod parser_error;
