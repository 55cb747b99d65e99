use crate::parser::ast::{Declaration, Expression, Type};
use crate::parser::span::Span;
use crate::types::token::Token;
use vstd::prelude::*;

verus! {

/// Declaration specifiers as the type they name, with the declarator.
#[derive(Debug)]
pub struct DeclSpec {
    pub ty: Type,
    pub declarator: DeclaratorInfo,
}

/// The parts of a declarator, in order.
#[derive(Debug)]
pub struct DeclaratorInfo {
    pub chunks: Vec<DeclaratorChunk>,
}

/// A part of a declarator: a nested declarator, a pointer with its
/// qualifiers, an array, or a parameter list.
#[derive(Debug)]
pub enum DeclaratorChunk {
    Decl(DeclaratorInfo),
    Pointer(Vec<QualifierInfo>),
    Array { size: Option<Expression>, size_modifier: ArraySizeModifier, span: Span },
    Function { is_variadic: bool, has_prototype: bool, params: Vec<ParamInfo>, span: Span },
}

/// A parameter: a bare name or a declaration.
#[derive(Debug)]
pub enum ParamInfo {
    Ident(Token),
    Decl(Declaration),
}

/// A type qualifier as written.
#[derive(Debug, Clone, Copy, PartialEq, Eq, Structural)]
pub enum QualifierInfo {
    Const,
    Volatile,
}

/// How the size of an array declarator is given.
///
/// - `Normal`: `int a[10];`
/// - `Static`: `int a[] = ...;`
/// - `VLA`: `int a[*];`
#[derive(Debug, Clone, Copy, PartialEq, Eq, Structural)]
pub enum ArraySizeModifier {
    Normal,
    Static,
    VLA,
}

} // verus!
