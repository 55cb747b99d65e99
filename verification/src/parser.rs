//! Parser-side types: spans, the syntax tree and its type rules, and the
//! compressed LR tables.

pub mod span;
pub mod ast;
pub mod cst;
pub mod parser_yy;
pub mod parser_core;
pub mod cst_folder;
