use ccfront::err::parser_error::ParserError;
use ccfront::parser::ast::{AssignOp, FloatSize, IntegerSize, Type, UnaryOp};
use ccfront::parser::cst::list_push;
use ccfront::parser::span::Span as PSpan;
use ccfront::types::ast::ast_nodes::{
    AssignOp as NAssignOp, AssignOpKind, BinaryOp as NBinaryOp, BinaryOpKind, Qualifiers, StorageClass,
    Type as NType, TypeKind, UnaryOp as NUnaryOp, UnaryOpKind,
};
use ccfront::types::ast::decl_info::TypeQual;
use ccfront::types::ast::seme::{list2qualifiers, list2storage};
use ccfront::types::ast::temp::{array_access_type, assign_type, func_call_type};
use ccfront::types::lex::token::{Token as LexToken, TokenKind};
use ccfront::types::span::{Delim, SepList, Span};
use ccfront::types::token::{Token, TokenValue};

fn sp(a: usize, b: usize) -> PSpan {
    PSpan { start: a, end: b }
}

fn signed_int(span: PSpan) -> Type {
    Type::Integer { signed: true, size: IntegerSize::Int, span }
}

#[test]
fn span_merge_laws() {
    let a = Span::new(3, 5);
    let b = Span::new(1, 4);
    let c = Span::new(7, 9);
    assert_eq!(a.merge(&b), Span { start: 1, end: 5 });
    assert_eq!(a.merge(&b), b.merge(&a));
    assert_eq!(a.merge(&b).merge(&c), a.merge(&b.merge(&c)));
    assert_eq!(a.merge(&a), a);
    let mut m = a;
    m.merge_self(&c);
    assert_eq!(m, Span { start: 3, end: 9 });

    let t1 = Token { beg: 2, end: 4, typ: 1, value: TokenValue::Other };
    let t2 = Token { beg: 8, end: 9, typ: 1, value: TokenValue::Other };
    assert_eq!(Span::from_token(&t1), Span { start: 2, end: 4 });
    assert_eq!(Span::from_tokens(vec![&t1, &t2]), Span { start: 2, end: 9 });
    let d = Delim::new(&t1, 7u8, &t2);
    assert_eq!((d.l, d.inner, d.r), (Span { start: 2, end: 4 }, 7, Span { start: 8, end: 9 }));

    let p = sp(2, 6);
    assert_eq!(p.len(), 4);
    assert_eq!(p.merge(&sp(5, 10)), sp(2, 10));
}

#[test]
fn separated_lists() {
    let mut l = SepList::new(1);
    l.push_sep(Span::new(1, 1));
    l.push_item(2);
    assert_eq!(l.list, vec![1, 2]);
    assert_eq!(l.sep, vec![Span { start: 1, end: 1 }]);
    let e: SepList<u8> = SepList::default();
    assert!(e.list.is_empty() && e.sep.is_empty());
    assert_eq!(list_push(vec![1, 2], 3), vec![1, 2, 3]);
}

#[test]
fn qualifiers_fold() {
    let s = Span::new(0, 1);
    let q = list2qualifiers(vec![TypeQual::Const(s), TypeQual::Const(s)]);
    assert_eq!(q, Qualifiers { is_const: true, is_volatile: false });
    let q = list2qualifiers(vec![TypeQual::Volatile(s), TypeQual::Const(s)]);
    assert_eq!(q, Qualifiers { is_const: true, is_volatile: true });
    let q = list2qualifiers(vec![]);
    assert_eq!(q, Qualifiers { is_const: false, is_volatile: false });

    let mut q = Qualifiers::new(false, false);
    assert!(!q.has(&TypeQual::Const(s)));
    q.set(TypeQual::Const(s));
    assert!(q.has(&TypeQual::Const(s)));
    q.set(TypeQual::Volatile(s));
    assert_eq!(q, Qualifiers { is_const: true, is_volatile: true });
    assert_eq!(Qualifiers::default(), Qualifiers::new(false, false));
    assert_eq!(TypeQual::Volatile(Span::new(4, 6)).unwrap_span(), Span { start: 4, end: 6 });
}

#[test]
fn storage_takes_the_first() {
    let s1 = Span::new(0, 1);
    let s2 = Span::new(2, 3);
    assert_eq!(list2storage(vec![StorageClass::Static(s1), StorageClass::Extern(s2)]), Some(StorageClass::Static(s1)));
    assert_eq!(list2storage(vec![]), None);
}

#[test]
fn assignment_takes_the_left_type() {
    let lhs = Type::Floating { size: FloatSize::Double, span: sp(0, 1) };
    let rhs = signed_int(sp(4, 5));
    let r = assign_type(&lhs, &AssignOp::Assign(sp(2, 3)), &rhs);
    assert!(matches!(r, Type::Floating { size: FloatSize::Double, span } if span == sp(0, 1)));

    let ptr = Type::Pointer(Box::new(signed_int(sp(0, 1))), sp(0, 2));
    let r = assign_type(&ptr, &AssignOp::AddAssign(sp(3, 5)), &signed_int(sp(6, 7)));
    assert!(matches!(r, Type::Pointer(_, span) if span == sp(0, 2)));
}

#[test]
fn element_and_call_types() {
    let ptr = Type::Pointer(Box::new(signed_int(sp(5, 8))), sp(0, 4));
    let r = array_access_type(&ptr, &signed_int(sp(9, 10)));
    // the element type, its span widened over the base's
    assert!(matches!(r, Type::Integer { signed: true, size: IntegerSize::Int, span } if span == sp(0, 8)));

    let arr = Type::Array { elem_ty: Box::new(Type::Void(sp(1, 2))), size: Some(3), span: sp(0, 6) };
    let r = array_access_type(&arr, &signed_int(sp(7, 8)));
    assert!(matches!(r, Type::Void(span) if span == sp(0, 6)));

    let f = Type::Function { ret_ty: Box::new(signed_int(sp(0, 3))), params: vec![], is_variadic: false, span: sp(0, 9) };
    let r = func_call_type(&f, vec![]);
    assert!(matches!(r, Type::Integer { span, .. } if span == sp(0, 3)));
    let pf = Type::Pointer(Box::new(f), sp(0, 10));
    let arg = signed_int(sp(11, 12));
    let r = func_call_type(&pf, vec![&arg]);
    assert!(matches!(r, Type::Integer { span, .. } if span == sp(0, 3)));
}

#[test]
fn type_queries() {
    let s = Type::string_type(5, sp(0, 7));
    match &s {
        Type::Array { elem_ty, size, span } => {
            assert_eq!(*size, Some(5));
            assert_eq!(*span, sp(0, 7));
            assert!(matches!(**elem_ty, Type::Integer { signed: false, size: IntegerSize::Char, .. }));
        }
        _ => panic!("not an array"),
    }
    assert!(s.is_array() && !s.is_integer());
    assert_eq!(signed_int(sp(0, 1)).rank(), 3);
    assert_eq!(Type::Integer { signed: false, size: IntegerSize::Long, span: sp(0, 1) }.rank(), 4);
    assert!(Type::Floating { size: FloatSize::Float, span: sp(0, 1) }.is_arithmetic());
    let mut t = signed_int(sp(0, 1));
    t.set_span(sp(4, 9));
    assert_eq!(t.unwarp_span(), sp(4, 9));
    assert!(UnaryOp::Deref(sp(0, 1)).is_lvalue());
    assert!(!UnaryOp::Minus(sp(0, 1)).is_lvalue());
    assert!(!UnaryOp::BitNot(sp(0, 1)).is_lvalue());

    let n = NType::string_type(2, Span::new(0, 3));
    assert!(n.is_array());
    assert!(matches!(n.kind, TypeKind::Array { size: Some(2), .. }));
    assert!(NType::new(TypeKind::Void, Span::new(0, 1)).span == Span::new(0, 1));
    assert!(!NUnaryOp::new(UnaryOpKind::BitNot, Span::new(0, 1)).is_lvalue());
    assert!(NUnaryOp::new(UnaryOpKind::Deref, Span::new(0, 1)).is_lvalue());
    assert!(!NUnaryOp::new(UnaryOpKind::AddressOf, Span::new(0, 1)).is_lvalue());
    assert_eq!(NBinaryOp::new(BinaryOpKind::Shl, Span::new(1, 3)).kind, BinaryOpKind::Shl);
    assert_eq!(NAssignOp::new(AssignOpKind::OrAssign, Span::new(1, 3)).span, Span::new(1, 3));
}

#[test]
fn parser_errors() {
    let e = ParserError::new(Span::new(1, 2), "Syntax Error", "expression");
    assert_eq!((e.span, e.msg.as_str(), e.name.as_str()), (Span::new(1, 2), "Syntax Error", "expression"));
    let e = e.with_pos(0).with_line(9).with_name("statement").with_msg("oops");
    assert_eq!((e.span, e.msg.as_str(), e.name.as_str()), (Span::new(0, 9), "oops", "statement"));
    let tok = LexToken::new(4, 6, TokenKind::Semicolon, ";".to_string());
    let e = e.with_token(&tok);
    assert_eq!(e.span, Span::new(4, 6));
}
