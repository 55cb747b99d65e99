//! Finite automata used to build and run the lexer.

pub mod dfa;
pub mod lex_core;
pub mod nfa;
pub mod types;
pub mod state_id_factory;
