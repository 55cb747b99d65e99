use crate::types::lex::token::{text_of, Token, TokenKind, TokenValue};
use crate::types::symbol_table::SymbolTable;
use vstd::prelude::*;

verus! {

/// Turns an identifier into a type name when the symbol table knows it
/// from the current scope; any other token is left as it is.
pub fn try_type_name<T>(token: &mut Token, symbol_table: &SymbolTable<T>)
    requires
        symbol_table.wf(),
        old(token).kind == TokenKind::ID ==> old(token).value is String,
    ensures
        final(token).span == old(token).span,
        final(token).value == old(token).value,
        final(token).kind == (if old(token).kind == TokenKind::ID && symbol_table.resolve(
            symbol_table.current(),
            text_of(*old(token)),
        ) is Some {
            TokenKind::TypeName
        } else {
            old(token).kind
        }),
{
    if token.kind != TokenKind::ID {
        return;
    }
    let found = match &token.value {
        TokenValue::String(id) => symbol_table.lookup(id.as_str()).is_some(),
        _ => false,
    };
    if found {
        token.kind = TokenKind::TypeName;
    }
}

} // verus!
