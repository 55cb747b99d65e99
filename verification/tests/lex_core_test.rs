use ccfront::err::lex_error::LexError;
use ccfront::lex::dfa::DFA;
use ccfront::lex::lex_core::{is_ascii_white_space, is_white_space, Lex, LexMode, LexTable, StateAction};
use ccfront::types::token::{Token, TokenValue};

const DOT: usize = 1;
const ELLIPSIS: usize = 2;
const ID: usize = 3;
const DIV: usize = 4;

fn action(token: Option<usize>, mode: Option<LexMode>) -> StateAction {
    StateAction { token, mode }
}

/// A small lexer: `.`, `...`, identifiers of lower-case letters, `/`,
/// line and block comments, white space and the opening of a string that
/// never closes.
///
/// States: 0 start, 1 `.`, 2 `..`, 3 `...`, 4 white space, 5 identifier,
/// 6 `/`, 7 `//`, 8 `/*`, 9 inside a string.
fn table() -> LexTable {
    let mut dfa = DFA::new(0, 10, 128);
    dfa.add_transition((0, '.' as usize, 1))
        .add_transition((1, '.' as usize, 2))
        .add_transition((2, '.' as usize, 3));
    for c in [' ', '\t', '\n', '\x0C', '\r'] {
        dfa.add_transition((0, c as usize, 4));
    }
    for c in 'a'..='z' {
        dfa.add_transition((0, c as usize, 5)).add_transition((5, c as usize, 5));
        dfa.add_transition((9, c as usize, 9));
    }
    dfa.add_transition((0, '/' as usize, 6))
        .add_transition((6, '/' as usize, 7))
        .add_transition((6, '*' as usize, 8))
        .add_transition((0, '"' as usize, 9));
    let actions = vec![
        action(None, None),
        action(Some(DOT), None),
        action(None, None),
        action(Some(ELLIPSIS), None),
        action(None, Some(LexMode::WhileSpace)),
        action(Some(ID), None),
        action(Some(DIV), None),
        action(None, Some(LexMode::LineComment)),
        action(None, Some(LexMode::BlockComment)),
        action(None, None),
    ];
    LexTable { dfa, classes: (0..128).collect(), actions, init_state: 0 }
}

fn text(t: &Token) -> String {
    match &t.value {
        TokenValue::String(s) => s.clone(),
        _ => panic!("token without text"),
    }
}

fn scan(input: &str) -> (Vec<(String, usize, usize, usize)>, Lex) {
    let mut lex = Lex::new(input.chars().collect(), table());
    let mut out = Vec::new();
    while let Some(t) = lex.next_token() {
        // the end is exclusive: the span is as long as the text
        assert_eq!(t.end - t.beg, text(&t).chars().count());
        out.push((text(&t), t.beg, t.end, t.typ));
    }
    (out, lex)
}

#[test]
fn test_lex() {
    let table = table();
    let mut state = table.init_state;
    for chr in r"...".chars() {
        println!("{:?}", table.actions[state].token);
        state = match table.find_next(state, chr) {
            None => panic!("Wrong"),
            Some(x) => x,
        };
    }

    println!("{:?}", table.actions[state].token);
}

/// The longest match wins: `...` is one token, `..` falls back to `.`.
#[test]
fn longest_match() {
    let (tokens, lex) = scan("...");
    assert_eq!(tokens, vec![("...".to_string(), 0, 3, ELLIPSIS)]);
    assert!(lex.get_errors().is_empty());

    let (tokens, _) = scan("ab .. c");
    assert_eq!(
        tokens,
        vec![
            ("ab".to_string(), 0, 2, ID),
            (".".to_string(), 3, 4, DOT),
            (".".to_string(), 4, 5, DOT),
            ("c".to_string(), 6, 7, ID),
        ]
    );
}

#[test]
fn comments_are_skipped() {
    let (tokens, lex) = scan("a//x\nb");
    assert_eq!(tokens, vec![("a".to_string(), 0, 1, ID), ("b".to_string(), 5, 6, ID)]);
    assert!(lex.get_errors().is_empty());

    let (tokens, _) = scan("/*c*/d");
    assert_eq!(tokens, vec![("d".to_string(), 5, 6, ID)]);

    let (tokens, _) = scan("a//x\r\nb/y");
    assert_eq!(
        tokens,
        vec![("a".to_string(), 0, 1, ID), ("b".to_string(), 6, 7, ID), ("/".to_string(), 7, 8, DIV), ("y".to_string(), 8, 9, ID)]
    );

    // a comment that never closes swallows the rest of the input
    let (tokens, lex) = scan("a/*b c");
    assert_eq!(tokens, vec![("a".to_string(), 0, 1, ID)]);
    assert!(lex.get_errors().is_empty());
}

#[test]
fn bad_symbol_is_reported_and_skipped() {
    let (tokens, lex) = scan("a @x b");
    assert_eq!(tokens, vec![("a".to_string(), 0, 1, ID), ("b".to_string(), 5, 6, ID)]);
    let errors = lex.get_errors();
    assert_eq!(errors.len(), 1);
    match &errors[0] {
        LexError::InvalidToken { pos, symbol } => {
            assert_eq!(*pos, 2);
            assert_eq!(symbol, "@x");
        }
        e => panic!("unexpected error {:?}", e),
    }
}

#[test]
fn unterminated_string_at_end() {
    let (tokens, lex) = scan("a \"bc");
    assert_eq!(tokens, vec![("a".to_string(), 0, 1, ID)]);
    let errors = lex.get_errors();
    assert_eq!(errors.len(), 1);
    match &errors[0] {
        LexError::MissingTerminating { pos, content } => {
            assert_eq!(*pos, 5);
            assert_eq!(*content, "\"");
        }
        e => panic!("unexpected error {:?}", e),
    }
}

#[test]
fn empty_input_gives_nothing() {
    let (tokens, lex) = scan("");
    assert!(tokens.is_empty());
    assert!(lex.get_errors().is_empty());
    let (tokens, _) = scan("  \t\n");
    assert!(tokens.is_empty());
}

/// Tokens come out in order, and once the scanner says `None` it keeps
/// saying it.
#[test]
fn tokens_in_order_then_none() {
    let mut lex = Lex::new("ab ... c".chars().collect(), table());
    let mut last_end: Option<usize> = None;
    while let Some(t) = lex.next_token() {
        if let Some(e) = last_end {
            assert!(e <= t.beg);
        }
        last_end = Some(t.end);
    }
    assert!(lex.next_token().is_none());
    assert!(lex.next_token().is_none());
}

#[test]
fn white_space_classes() {
    for c in [' ', '\t', '\n', '\x0B', '\x0C', '\r', '\u{85}', '\u{A0}', '\u{2003}', '\u{3000}'] {
        assert_eq!(is_white_space(c), c.is_whitespace());
    }
    for c in ['a', '_', '\u{200B}'] {
        assert_eq!(is_white_space(c), c.is_whitespace());
    }
    for c in [' ', '\t', '\n', '\x0B', '\x0C', '\r', 'a', '\u{A0}'] {
        assert_eq!(is_ascii_white_space(c), c.is_ascii_whitespace());
    }
}

/// A table is usable only with one action per state, classes inside the
/// automaton, and a start state that moves on white space.
#[test]
fn table_usability() {
    assert!(table().is_wf());
    let mut short = table();
    short.actions.pop();
    assert!(!short.is_wf());
    let mut wide = table();
    wide.classes[65] = 128;
    assert!(!wide.is_wf());
    let mut stuck = table();
    stuck.dfa = DFA::new(0, 10, 128);
    assert!(!stuck.is_wf());
    let mut far = table();
    far.init_state = 10;
    assert!(!far.is_wf());
    assert!(DFA::new(0, 3, 4).is_wf());
}
