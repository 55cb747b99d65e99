//! Declarators with their initializers.

use crate::types::ast::ast_nodes::Initializer;
use crate::types::ast::decl_info::Declarator;
use crate::types::lex::token::Token;
use crate::types::span::{SepList, Span};
use vstd::prelude::*;

verus! {

/// A declarator, the span of its `=` and its initializer, if any.
#[derive(Debug)]
pub struct InitDeclarator {
    pub decl: Declarator,
    pub eq_span: Option<Span>,
    pub init: Option<Initializer>,
}

impl InitDeclarator {
    /// A declarator with an optional `= initializer`.
    pub fn make(decl: Declarator, eq: Option<Token>, init: Option<Initializer>) -> (r: Box<InitDeclarator>)
        ensures
            r.decl == decl,
            r.eq_span == (match eq {
                Some(t) => Some(t.span),
                None => None,
            }),
            r.init == init,
    {
        let eq_span = match eq {
            Some(t) => Some(t.span),
            None => None,
        };
        Box::new(InitDeclarator { decl, eq_span, init })
    }

    /// A list of one declarator.
    pub fn make_list(init: Box<InitDeclarator>) -> (r: SepList<Box<InitDeclarator>>)
        ensures
            r.list@ == seq![init],
            r.sep@.len() == 0,
    {
        SepList::new(init)
    }

    /// Appends a declarator after a comma.
    pub fn push(list: SepList<Box<InitDeclarator>>, comma: Token, init: Box<InitDeclarator>) -> (r: SepList<
        Box<InitDeclarator>,
    >)
        ensures
            r.list@ == list.list@.push(init),
            r.sep@ == list.sep@.push(comma.span),
    {
        let mut list = list;
        list.push_sep(comma.span);
        list.push_item(init);
        list
    }
}

} // verus!
