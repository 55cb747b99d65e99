//! Tokens handed from the lexer to the parser.

pub mod token;
