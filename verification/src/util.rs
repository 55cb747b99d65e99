//! Helpers between the lexer and the parser.

pub mod try_type_name;
