use ccfront::types::ast::ast_nodes::{
    AssignOpKind, BinaryOpKind, Constant, ConstantKind, Expression, ExpressionKind, IntegerSize, Statement,
    StatementKind, TypeKind, UnaryOpKind,
};
use ccfront::types::lex::token::{Token, TokenKind, TokenValue};
use ccfront::types::span::Span;

fn tok(kind: TokenKind, a: usize, b: usize) -> Token {
    Token { span: Span::new(a, b), kind, value: TokenValue::Other }
}

fn id(name: &str, a: usize, b: usize) -> Token {
    Token::new(a, b, TokenKind::ID, name.to_string())
}

fn num(v: usize, a: usize, b: usize) -> Box<Expression> {
    let t = Token { span: Span::new(a, b), kind: TokenKind::Int, value: TokenValue::Number { value: v, signed: true } };
    Expression::make_literal(Constant::make(t))
}

#[test]
fn binary_and_assign() {
    let lhs = Expression::make_id(id("a", 0, 0));
    let rhs = num(2, 4, 4);
    let e = Expression::make_binary(lhs, tok(TokenKind::OpLShift, 1, 2), rhs);
    assert_eq!(e.span, Span::new(0, 4));
    match &e.kind {
        ExpressionKind::Binary { op, .. } => {
            assert_eq!(op.kind, BinaryOpKind::Shl);
            assert_eq!(op.span, Span::new(1, 2));
        }
        k => panic!("{:?}", k),
    }
    assert!(e.is_rvalue());

    let lhs = Expression::make_id(id("x", 10, 10));
    assert!(lhs.is_lvalue());
    let e = Expression::make_assign(lhs, tok(TokenKind::OpAndAssign, 12, 13), num(1, 15, 15));
    match &e.kind {
        ExpressionKind::Assign { op, .. } => assert_eq!(op.kind, AssignOpKind::AndAssign),
        k => panic!("{:?}", k),
    }
    // an assignment yields a value, not an object
    assert!(e.is_rvalue());
    assert_eq!(e.span, Span::new(10, 15));

    assert!(BinaryOpKind::try_from(tok(TokenKind::OpAssign, 0, 0)).is_err());
    assert_eq!(AssignOpKind::try_from(tok(TokenKind::OpModAssign, 0, 0)).unwrap(), AssignOpKind::ModAssign);
    assert!(AssignOpKind::try_from(tok(TokenKind::OpXorAssign, 0, 0)).is_err());
}

#[test]
fn unary_update_and_lvalues() {
    let p = Expression::make_id(id("p", 1, 1));
    let d = Expression::make_unary(tok(TokenKind::OpTimes, 0, 0), p);
    match &d.kind {
        ExpressionKind::Unary { op, .. } => assert_eq!(op.kind, UnaryOpKind::Deref),
        k => panic!("{:?}", k),
    }
    assert!(d.is_lvalue());
    let n = Expression::make_unary(tok(TokenKind::OpMinus, 0, 0), num(3, 1, 1));
    assert!(n.is_rvalue());

    let post = Expression::make_update(Expression::make_id(id("i", 0, 0)), tok(TokenKind::OpInc, 1, 2), true);
    assert!(matches!(post.kind, ExpressionKind::PostInc(_)));
    assert!(post.is_lvalue());
    assert_eq!(post.span, Span::new(0, 2));
    let pre = Expression::make_update(Expression::make_id(id("i", 2, 2)), tok(TokenKind::OpDec, 0, 1), false);
    assert!(matches!(pre.kind, ExpressionKind::PreDec(_)));
    assert!(pre.is_rvalue());

    let field = Expression::make_field_access(Expression::make_id(id("s", 0, 0)), id("f", 2, 2));
    assert!(matches!(&field.kind, ExpressionKind::FieldAccess { field, .. } if field == "f"));
    let arrow = Expression::make_arrow(Expression::make_id(id("s", 0, 0)), id("g", 3, 3));
    assert_eq!(arrow.span, Span::new(0, 3));
    let call = Expression::make_call(Expression::make_id(id("f", 0, 0)), vec![num(1, 2, 2)], tok(TokenKind::Rparen, 3, 3));
    assert!(matches!(&call.kind, ExpressionKind::Call { args, .. } if args.len() == 1));
    assert!(call.is_rvalue());
    let idx = Expression::make_array_access(Expression::make_id(id("a", 0, 0)), num(0, 2, 2), tok(TokenKind::Rbracket, 3, 3));
    assert!(idx.is_lvalue());
    let cond = Expression::make_conditional(num(1, 0, 0), num(2, 4, 4), num(3, 8, 8));
    assert_eq!(cond.span, Span::new(0, 8));
    let sz = Expression::make_sizeof_expr(tok(TokenKind::KeywordSizeof, 0, 5), num(4, 7, 7));
    assert_eq!(sz.span, Span::new(7, 7));
    let list = Expression::make_comma(vec![num(1, 0, 0)], num(2, 2, 2));
    assert_eq!(list.len(), 2);
}

#[test]
fn statements() {
    let body = Statement::make_expression(Some(num(1, 10, 10)), tok(TokenKind::Semicolon, 11, 11));
    assert_eq!(body.span, Span::new(10, 11));
    let w = Statement::make_while(tok(TokenKind::KeywordWhile, 0, 4), num(1, 6, 6), body, None);
    assert!(matches!(w.kind, StatementKind::While { .. }));
    assert_eq!(w.span, Span::new(0, 11));

    let body = Statement::make_expression(None, tok(TokenKind::Semicolon, 3, 3));
    let dw = Statement::make_while(tok(TokenKind::KeywordDo, 0, 1), num(1, 9, 9), body, Some(tok(TokenKind::Rparen, 10, 10)));
    assert!(matches!(dw.kind, StatementKind::DoWhile { .. }));
    assert_eq!(dw.span, Span::new(0, 10));

    let c = Statement::make_continue_break(tok(TokenKind::KeywordBreak, 5, 9));
    assert!(matches!(c.kind, StatementKind::Break));
    let r = Statement::make_return(tok(TokenKind::KeywordReturn, 0, 5), Some(num(0, 7, 7)));
    assert_eq!(r.span, Span::new(0, 7));
    let g = Statement::make_goto(tok(TokenKind::KeywordGoto, 0, 3), id("out", 5, 7));
    assert!(matches!(&g.kind, StatementKind::Goto { label } if label == "out"));

    let stmt = Statement::make_expression(None, tok(TokenKind::Semicolon, 9, 9));
    let case = Statement::make_case(tok(TokenKind::KeywordCase, 0, 3), num(7, 5, 5), stmt);
    assert!(matches!(case.kind, StatementKind::Case { value: 7, .. }));

    let then_s = Statement::make_expression(None, tok(TokenKind::Semicolon, 6, 6));
    let else_s = Statement::make_expression(None, tok(TokenKind::Semicolon, 12, 12));
    let i = Statement::make_if(tok(TokenKind::KeywordIf, 0, 1), num(1, 3, 3), then_s, Some(else_s));
    assert_eq!(i.span, Span::new(0, 12));
    let then_s = Statement::make_expression(None, tok(TokenKind::Semicolon, 6, 6));
    let i = Statement::make_if(tok(TokenKind::KeywordIf, 0, 1), num(1, 3, 3), then_s, None);
    assert_eq!(i.span, Span::new(0, 1));

    let l = Statement::make_label(id("top", 0, 2), Statement::make_continue_break(tok(TokenKind::KeywordContinue, 5, 12)));
    assert!(matches!(&l.kind, StatementKind::Labeled { label, .. } if label == "top"));
    assert_eq!(l.span, Span::new(0, 12));
}

#[test]
fn constants() {
    let s1 = Token { span: Span::new(0, 3), kind: TokenKind::StringLiteral, value: TokenValue::String("ab".to_string()) };
    let s2 = Token { span: Span::new(5, 7), kind: TokenKind::StringLiteral, value: TokenValue::String("çd".to_string()) };
    let c = Constant::insert_str(Constant::make(s1), s2);
    assert_eq!(c.span, Span::new(0, 7));
    assert!(matches!(&c.kind, ConstantKind::String(s) if s == "abçd"));
    let t = c.get_type();
    // five bytes of text
    assert!(matches!(t.kind, TypeKind::Array { size: Some(5), .. }));

    let ch = Constant::make(Token { span: Span::new(0, 2), kind: TokenKind::CharacterConstant, value: TokenValue::Char(b'x') });
    assert!(matches!(ch.get_type().kind, TypeKind::Integer { signed: true, size: IntegerSize::Char }));
    let other = Token { span: Span::new(0, 0), kind: TokenKind::Semicolon, value: TokenValue::Other };
    assert!(Constant::try_from(other).is_err());
    let big = Token { span: Span::new(0, 0), kind: TokenKind::Int, value: TokenValue::Number { value: usize::MAX, signed: true } };
    assert!(matches!(ConstantKind::try_from(big), Ok(ConstantKind::Int(-1))));
}
