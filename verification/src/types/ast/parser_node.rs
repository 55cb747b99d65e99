//! Lists the grammar rules build token by token.

use crate::types::lex::token::Token;
use crate::types::span::SepList;
use vstd::prelude::*;

verus! {

/// Appends `ident` to the identifier list, which may be absent, and the
/// span of the comma before it, if any.
pub fn make_ident_list(ident_list: Option<SepList<Token>>, comma: Option<Token>, ident: Token) -> (r: SepList<Token>)
    ensures
        r.list@ == (match ident_list {
            Some(l) => l.list@,
            None => Seq::empty(),
        }).push(ident),
        r.sep@ == (match (ident_list, comma) {
            (Some(l), Some(c)) => l.sep@.push(c.span),
            (Some(l), None) => l.sep@,
            (None, Some(c)) => seq![c.span],
            (None, None) => Seq::empty(),
        }),
{
    let mut ident_list = match ident_list {
        Some(l) => l,
        None => SepList { list: Vec::new(), sep: Vec::new() },
    };
    ident_list.push_item(ident);
    if let Some(x) = comma {
        ident_list.push_sep(x.span);
    }
    ident_list
}

/// Appends the comma's span and `ident` to the identifier list.
pub fn push_ident_list(list: SepList<Token>, comma: Token, ident: Token) -> (r: SepList<Token>)
    ensures
        r.list@ == list.list@.push(ident),
        r.sep@ == list.sep@.push(comma.span),
{
    let mut list = list;
    list.push_sep(comma.span);
    list.push_item(ident);
    list
}

} // verus!
