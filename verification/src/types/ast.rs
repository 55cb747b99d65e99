//! Syntax tree nodes and the type rules of expressions.

pub mod ast_nodes;
pub mod decl_info;
pub mod func_info;
pub mod initializer;
pub mod methods;
pub mod parser_node;
pub mod seme;
pub mod struct_info;
pub mod temp;
pub mod type_info;
