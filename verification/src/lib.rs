//! Front end of a small C compiler: lexer automata, spans, abstract syntax
//! types, type rules and parse tables, each with a machine-checked contract.

pub mod lex;
pub mod parser;
pub mod types;
pub mod util;
pub mod utils;
pub mod compiler;
pub mod err;
