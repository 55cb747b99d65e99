use ccfront::types::lex::token::{Token, TokenKind};
use ccfront::types::symbol_table::{Symbol, SymbolTable};
use ccfront::util::try_type_name::try_type_name;

/// What a definition gives back: a name defined in the current scope is
/// found there.
#[test]
fn lookup_after_insert() {
    let mut t: SymbolTable<u32> = SymbolTable::new();
    assert!(t.lookup("x").is_none());
    t.insert("x", 1).unwrap();
    assert_eq!(*t.lookup("x").unwrap(), 1);
    assert_eq!(*t.lookup_global("x").unwrap(), 1);
}

#[test]
fn duplicate_definition_is_refused() {
    let mut t: SymbolTable<u32> = SymbolTable::new();
    t.insert("x", 1).unwrap();
    let e = t.insert("x", 2).unwrap_err();
    assert_eq!(e.msg, "Duplicate Define x");
    assert_eq!(e.name, "");
    assert_eq!((e.span.start, e.span.end), (0, 0));
    assert_eq!(*t.lookup("x").unwrap(), 1);
}

/// Inner scopes see the outer names, hide only what they define, and the
/// global lookup sees only the global scope.
#[test]
fn nested_scopes() {
    let mut t: SymbolTable<&str> = SymbolTable::new();
    t.insert("a", "global a").unwrap();
    t.insert("b", "global b").unwrap();
    t.enter_scope();
    t.insert("a", "inner a").unwrap();
    t.insert("c", "inner c").unwrap();
    assert_eq!(*t.lookup("a").unwrap(), "inner a");
    assert_eq!(*t.lookup("b").unwrap(), "global b");
    assert_eq!(*t.lookup("c").unwrap(), "inner c");
    assert_eq!(*t.lookup_global("a").unwrap(), "global a");
    assert!(t.lookup_global("c").is_none());

    // leaving the scope makes the global scope current again
    let left = t.exit_scope();
    assert_eq!(left, 1);
    assert!(t.lookup("c").is_none());
    assert_eq!(*t.lookup("a").unwrap(), "global a");
    assert_eq!(*t.lookup("b").unwrap(), "global b");
    // the scope just left can still be searched through its place
    assert_eq!(*t.lookup_from(left, "c").unwrap(), "inner c");
    assert_eq!(*t.lookup_from(left, "b").unwrap(), "global b");
}

#[test]
fn identifiers_known_to_the_table_become_type_names() {
    let mut t: SymbolTable<Symbol> = SymbolTable::new();
    t.insert("size_t", Symbol {}).unwrap();
    let mut tok = Token::new(0, 5, TokenKind::ID, "size_t".to_string());
    try_type_name(&mut tok, &t);
    assert_eq!(tok.kind, TokenKind::TypeName);

    let mut tok = Token::new(0, 0, TokenKind::ID, "n".to_string());
    try_type_name(&mut tok, &t);
    assert_eq!(tok.kind, TokenKind::ID);

    let mut tok = Token::new(0, 0, TokenKind::Semicolon, ";".to_string());
    try_type_name(&mut tok, &t);
    assert_eq!(tok.kind, TokenKind::Semicolon);
}
