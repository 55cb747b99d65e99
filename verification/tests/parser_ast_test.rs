use ccfront::parser::ast::{
    AssignOp, BinaryOp, Constant, Declaration, Expression, ExpressionKind, ExternalDeclaration, Qualifiers, Statement,
    StorageClass, TranslationUnit, Type, UnaryOp,
};
use ccfront::parser::span::Span;
use ccfront::types::lex::token::TokenKind;
use ccfront::types::token::{Token, TokenValue};

fn tok(beg: usize, end: usize) -> Token {
    Token { beg, end, typ: 1, value: TokenValue::Other }
}

fn name(text: &str, beg: usize, end: usize) -> Token {
    Token { beg, end, typ: 1, value: TokenValue::String(text.to_string()) }
}

fn lit(v: usize, beg: usize, end: usize) -> Expression {
    let t = Token { beg, end, typ: 1, value: TokenValue::Number { value: v, signed: true } };
    Expression::make_literal(Constant::make(t))
}

fn var(text: &str, beg: usize, end: usize) -> Expression {
    Expression { kind: Expression::make_id(name(text, beg, end)), ty: None, span: Span::new(beg, end) }
}

#[test]
fn old_ast_statements() {
    let e = Statement::make_expression(Some(lit(1, 0, 1)), tok(1, 2));
    assert_eq!(e.unwrap_span(), Span::new(0, 2));
    let empty = Statement::make_expression(None, tok(5, 6));
    assert_eq!(empty.unwrap_span(), Span::new(5, 6));

    let brk = Statement::make_continue_break(tok(10, 15), TokenKind::KeywordBreak);
    assert!(matches!(brk, Statement::Break(s) if s == Span::new(10, 15)));
    let cont = Statement::make_continue_break(tok(10, 18), TokenKind::KeywordContinue);
    assert!(matches!(cont, Statement::Continue(_)));

    // The span of `if` runs to the else branch only.
    let s = Statement::make_if(tok(0, 2), var("a", 4, 5), e, Some(brk));
    assert_eq!(s.unwrap_span(), Span::new(0, 15));
    let s2 = Statement::make_if(tok(20, 22), var("a", 24, 25), empty, None);
    assert_eq!(s2.unwrap_span(), Span::new(20, 22));

    let body = Statement::make_return(tok(30, 36), Some(lit(0, 37, 38)));
    assert_eq!(body.unwrap_span(), Span::new(30, 38));
    let w = Statement::make_while(tok(25, 30), TokenKind::KeywordDo, var("x", 40, 41), body, Some(tok(42, 43)));
    match &w {
        Statement::DoWhile { span, .. } => assert_eq!(*span, Span::new(25, 43)),
        x => panic!("{:?}", x),
    }

    let g = Statement::make_goto(tok(0, 4), name("out", 5, 8));
    match &g {
        Statement::Goto { label, span } => {
            assert_eq!(label, "out");
            assert_eq!(*span, Span::new(0, 8));
        }
        x => panic!("{:?}", x),
    }
    let case = Statement::make_case(lit(3, 5, 6), g);
    match &case {
        Statement::Case { value, span, .. } => {
            assert_eq!(*value, 3);
            assert_eq!(*span, Span::new(5, 6));
        }
        x => panic!("{:?}", x),
    }
    let f = Statement::make_for(tok(0, 3), None, Some(var("i", 5, 6)), None, case);
    assert_eq!(f.unwrap_span(), Span::new(0, 6));
    let sw = Statement::make_switch(tok(0, 6), var("c", 8, 9), f);
    assert_eq!(sw.unwrap_span(), Span::new(0, 6));
}

#[test]
fn old_ast_expressions() {
    let b = Expression::make_binary(var("a", 0, 1), tok(2, 3), TokenKind::OpLe, var("b", 4, 5));
    assert_eq!(b.span, Span::new(0, 5));
    assert!(matches!(b.kind, ExpressionKind::Binary { op: BinaryOp::Le(s), .. } if s == Span::new(2, 3)));
    assert!(b.is_rvalue());

    let lhs = var("x", 10, 11);
    assert!(lhs.is_lvalue());
    let a = Expression::make_assign(lhs, tok(12, 14), TokenKind::OpAddAssign, lit(1, 15, 16));
    assert!(matches!(a.kind, ExpressionKind::Assign { op: AssignOp::AddAssign(_), .. }));
    // an assignment yields a value, not an object
    assert!(a.is_rvalue());

    let u = Expression::make_unary(tok(0, 1), TokenKind::OpTimes, var("p", 1, 2));
    assert!(matches!(u.kind, ExpressionKind::Unary { op: UnaryOp::Deref(_), .. }));
    assert!(u.is_lvalue());
    let neg = Expression::make_unary(tok(0, 1), TokenKind::OpMinus, var("p", 1, 2));
    assert!(neg.is_rvalue());

    let inc = Expression::make_update(var("i", 0, 1), tok(1, 3), TokenKind::OpInc, true);
    assert!(matches!(inc.kind, ExpressionKind::PostInc(_)));
    assert_eq!(inc.span, Span::new(0, 3));
    let dec = Expression::make_update(var("i", 2, 3), tok(0, 2), TokenKind::OpDec, false);
    assert!(matches!(dec.kind, ExpressionKind::PreDec(_)));

    let call = Expression::make_call(var("f", 0, 1), vec![lit(1, 2, 3)], tok(3, 4));
    assert_eq!(call.span, Span::new(0, 4));
    let idx = Expression::make_array_access(var("a", 0, 1), lit(2, 2, 3), tok(3, 4));
    assert!(idx.is_lvalue());
    let fa = Expression::make_field_access(var("s", 0, 1), name("x", 2, 3));
    assert!(matches!(&fa.kind, ExpressionKind::FieldAccess { field, .. } if field == "x"));
    let ar = Expression::make_arrow(var("s", 0, 1), name("y", 3, 4));
    assert_eq!(ar.span, Span::new(0, 4));

    let ty = Type::Void(Span::new(1, 5));
    let cast = Expression::make_cast(tok(0, 1), ty, var("v", 6, 7));
    assert_eq!(cast.span, Span::new(0, 7));
    assert!(cast.is_lvalue());
    let st = Expression::make_sizeof_type(tok(0, 6), Type::Void(Span::new(7, 11)), tok(11, 12));
    assert_eq!(st.span, Span::new(0, 12));
    let se = Expression::make_sizeof_expr(tok(0, 6), var("v", 7, 8));
    assert_eq!(se.span, Span::new(7, 8));
    let c = Expression::make_conditional(var("c", 0, 1), lit(1, 4, 5), lit(2, 8, 9));
    assert_eq!(c.span, Span::new(0, 9));
    let list = Expression::make_comma(vec![lit(1, 0, 1)], lit(2, 3, 4));
    assert_eq!(list.len(), 2);
}

#[test]
fn old_ast_constants() {
    let s = Constant::make(name("ab", 0, 4));
    let s = Constant::insert_str(s, name("cd", 5, 9));
    match &s {
        Constant::String(text, span) => {
            assert_eq!(text, "abcd");
            assert_eq!(*span, Span::new(0, 9));
        }
        x => panic!("{:?}", x),
    }
    assert_eq!(s.unwrap_span(), Span::new(0, 9));
    let ch = Constant::make(Token { beg: 0, end: 3, typ: 1, value: TokenValue::Char(b'a') });
    assert!(matches!(ch, Constant::Char(97, _)));
    let f = Constant::make(Token { beg: 0, end: 3, typ: 1, value: TokenValue::Float(1.5f64.to_bits()) });
    assert!(matches!(f, Constant::Float(bits, _) if f64::from_bits(bits) == 1.5));
}

#[test]
fn old_ast_declarations() {
    assert!(matches!(StorageClass::make(tok(0, 6), TokenKind::KeywordExtern), StorageClass::Extern(s) if s == Span::new(0, 6)));
    let q = Qualifiers::make(None, tok(0, 5), TokenKind::KeywordConst);
    assert!(q.is_const && !q.is_volatile);
    let q = Qualifiers::make(Some(q), tok(6, 14), TokenKind::KeywordVolatile);
    assert!(q.is_const && q.is_volatile);

    let decl = Declaration {
        name: "x".to_string(),
        ty: Type::Void(Span::new(0, 4)),
        storage: None,
        qualifiers: Qualifiers::new(false, false),
        init: None,
        span: Span::new(0, 6),
    };
    let ext = ExternalDeclaration::make_variable(decl);
    assert_eq!(ext.unwrap_span(), Span::new(0, 6));
    let unit = TranslationUnit::make_translation_unit(ext);
    assert_eq!(unit.span, Span::new(0, 6));
    assert_eq!(unit.ext_decls.len(), 1);
}
