use ccfront::types::lex::token::{Token, TokenKind, TokenValue};
use ccfront::types::span::Span;
use ccfront::types::token::{Token as RawToken, TokenValue as RawValue, END_SYMBOL};

fn number(t: &Token) -> (usize, bool) {
    match t.value {
        TokenValue::Number { value, signed } => (value, signed),
        ref v => panic!("not a number: {:?}", v),
    }
}

#[test]
fn numbers_are_read_in_their_base() {
    let t = Token::new(0, 3, TokenKind::Hex, "0x1F".to_string());
    assert_eq!(t.kind, TokenKind::Int);
    assert_eq!(number(&t), (31, true));
    assert_eq!(t.span, Span { start: 0, end: 3 });

    let t = Token::new(4, 6, TokenKind::Oct, "017".to_string());
    assert_eq!(t.kind, TokenKind::Int);
    assert_eq!(number(&t), (15, true));

    let t = Token::new(7, 8, TokenKind::Int, "42".to_string());
    assert_eq!(t.kind, TokenKind::Int);
    assert_eq!(number(&t), (42, true));

    let t = Token::new(0, 1, TokenKind::Hex, "0Xff".to_string());
    assert_eq!(number(&t), (255, true));

    let t = Token::new(0, 20, TokenKind::Int, "9223372036854775807".to_string());
    assert_eq!(number(&t), (isize::MAX as usize, true));
}

/// A signed number is read as `isize::from_str_radix` reads it, then cast.
#[test]
fn signs_follow_from_str_radix() {
    let t = Token::new(0, 1, TokenKind::Int, "+7".to_string());
    assert_eq!(number(&t), (7, true));
    let t = Token::new(0, 1, TokenKind::Int, "-5".to_string());
    assert_eq!(number(&t), ((-5isize) as usize, true));
    let t = Token::new(0, 1, TokenKind::Int, "-0".to_string());
    assert_eq!(number(&t), (0, true));
}

#[test]
fn text_and_char_values() {
    let t = Token::new(0, 2, TokenKind::ID, "abc".to_string());
    assert_eq!(t.kind, TokenKind::ID);
    match &t.value {
        TokenValue::String(s) => assert_eq!(s, "abc"),
        v => panic!("{:?}", v),
    }
    let t = Token::new(0, 4, TokenKind::StringLiteral, "\"hi\"".to_string());
    match &t.value {
        TokenValue::String(s) => assert_eq!(s, "\"hi\""),
        v => panic!("{:?}", v),
    }
    let t = Token::new(0, 2, TokenKind::CharacterConstant, "'a'".to_string());
    assert!(matches!(t.value, TokenValue::Char(b'\'')));
    let t = Token::new(0, 1, TokenKind::CharacterConstant, "é".to_string());
    assert!(matches!(t.value, TokenValue::Char(0xC3)));
    let t = Token::new(5, 5, TokenKind::Semicolon, ";".to_string());
    assert!(matches!(t.value, TokenValue::Other));
    assert_eq!(t.kind, TokenKind::Semicolon);
    let t = Token::new(5, 6, TokenKind::TypeName, "T".to_string());
    assert!(matches!(t.value, TokenValue::Other));
}

#[test]
fn end_token_marks_the_end() {
    let t = RawToken::end_token();
    assert_eq!(t.typ, END_SYMBOL);
    assert_eq!((t.beg, t.end), (0, 0));
    assert!(matches!(t.value, RawValue::Other));
    assert!(t.is(END_SYMBOL));
    assert!(!t.is(3));
    // with comments and white space numbered 7, 8 and 9
    assert!(!t.ignore(7, 8, 9));
    let c = RawToken { beg: 0, end: 2, typ: 8, value: RawValue::Other };
    assert!(c.ignore(7, 8, 9));
}
