//! Parameter lists of function declarators.

use crate::types::ast::decl_info::{DeclSpec, Declarator};
use crate::types::ast::type_info::CompleteDecl;
use crate::types::lex::token::Token;
use crate::types::span::{spec_merge, SepList, Span};
use vstd::prelude::*;

verus! {

/// A parameter list: whether it ends in `...`, whether every parameter
/// gives its type, the parameters with their commas, and its span.
#[derive(Debug)]
pub struct ParamList {
    pub is_variadic: bool,
    pub has_prototype: bool,
    pub list: SepList<Box<ParamDecl>>,
    pub span: Span,
}

impl ParamList {
    /// A list of one parameter.
    pub fn make_list(param_decl: Box<ParamDecl>) -> (r: ParamList)
        ensures
            !r.is_variadic,
            r.has_prototype == param_decl.has_prototype,
            r.list.list@ == seq![param_decl],
            r.list.sep@.len() == 0,
            r.span == param_decl_span(*param_decl),
    {
        let span = param_decl.unwrap_span();
        let has_prototype = param_decl.has_prototype;
        ParamList { is_variadic: false, has_prototype, list: SepList::new(param_decl), span }
    }

    /// Appends a parameter after a comma; the list has a prototype only if
    /// every parameter has one, and its span grows to cover the new one.
    pub fn push(param_list: ParamList, comma: Token, param_decl: Box<ParamDecl>) -> (r: ParamList)
        ensures
            r.is_variadic == param_list.is_variadic,
            r.has_prototype == (param_list.has_prototype && param_decl.has_prototype),
            r.list.list@ == param_list.list.list@.push(param_decl),
            r.list.sep@ == param_list.list.sep@.push(comma.span),
            r.span == spec_merge(param_list.span, param_decl_span(*param_decl)),
    {
        let mut param_list = param_list;
        param_list.has_prototype = param_list.has_prototype && param_decl.has_prototype;
        let span = param_decl.unwrap_span();
        param_list.span.merge_self(&span);
        param_list.list.push_sep(comma.span);
        param_list.list.push_item(param_decl);
        param_list
    }

    /// Marks the list as ending in `, ...`; the span grows to the ellipsis.
    pub fn set_variadic(param_list: ParamList, comma: Token, ellipsis: Token) -> (r: ParamList)
        ensures
            r.is_variadic,
            r.has_prototype == param_list.has_prototype,
            r.list.list@ == param_list.list.list@,
            r.list.sep@ == param_list.list.sep@.push(comma.span),
            r.span == spec_merge(param_list.span, ellipsis.span),
    {
        let mut param_list = param_list;
        param_list.list.push_sep(comma.span);
        param_list.is_variadic = true;
        param_list.span.merge_self(&ellipsis.span);
        param_list
    }
}

/// A parameter declaration and whether it gives a type.
#[derive(Debug)]
pub struct ParamDecl {
    pub complete_decl: CompleteDecl,
    pub has_prototype: bool,
}

/// The span of a parameter: its specifiers, and its declarator if any.
pub open spec fn param_decl_span(p: ParamDecl) -> Span {
    match p.complete_decl.declarator {
        Some(d) => spec_merge(p.complete_decl.decl_spec.span, d.span),
        None => p.complete_decl.decl_spec.span,
    }
}

impl ParamDecl {
    /// A parameter of the given specifiers and declarator.
    pub fn make(decl_spec: DeclSpec, declarator: Option<Declarator>, has_prototype: bool) -> (r: Box<ParamDecl>)
        ensures
            r.complete_decl.decl_spec == decl_spec,
            r.complete_decl.declarator == declarator,
            r.has_prototype == has_prototype,
    {
        Box::new(ParamDecl { complete_decl: CompleteDecl { decl_spec, declarator }, has_prototype })
    }

    /// The span of the parameter.
    pub fn unwrap_span(&self) -> (r: Span)
        ensures
            r == param_decl_span(*self),
    {
        let decl = &self.complete_decl;
        let mut span = decl.decl_spec.unwrap_span();
        if let Some(x) = &decl.declarator {
            span.merge_self(&x.span);
        }
        span
    }
}

} // verus!
