//! Shared data types of the front end: positions, tokens and syntax trees.

pub mod span;
pub mod token;
pub mod lex;
pub mod symbol_table;
pub mod ast;
