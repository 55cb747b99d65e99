use ccfront::types::ast::ast_nodes::{
    BlockItem, Constant, DeclStmt, Expression, ExternalDeclaration, Initializer, StatementKind, StorageClass,
    TranslationUnit, Type, TypeKind,
};
use ccfront::types::ast::decl_info::{
    ArraySizeModifier, CompleteDecl, DeclChunk, DeclChunkKind, DeclSpec, Declarator, ParamInfo, ParamList,
    PointerChunk, TypeQual, TypeSpec,
};
use ccfront::types::ast::func_info::ParamDecl;
use ccfront::types::ast::initializer::InitDeclarator;
use ccfront::types::ast::parser_node::make_ident_list;
use ccfront::types::ast::seme::{chunks2type, flat_chunks, TypeSuffix};
use ccfront::types::ast::struct_info::{EnumSpec, Enumerator, StructDeclarator, StructKind, StructMember, StructOrUnionSpec};
use ccfront::types::ast::type_info;
use ccfront::types::lex::token::{Token, TokenKind, TokenValue};
use ccfront::types::span::{SepList, Span};
use ccfront::types::ast::ast_nodes::{IntegerSize, Statement};

fn tok(kind: TokenKind, a: usize, b: usize) -> Token {
    Token { span: Span::new(a, b), kind, value: TokenValue::Other }
}

fn id(name: &str, a: usize, b: usize) -> Token {
    Token::new(a, b, TokenKind::ID, name.to_string())
}

fn num(v: usize, a: usize, b: usize) -> Box<Expression> {
    let t = Token { span: Span::new(a, b), kind: TokenKind::Int, value: TokenValue::Number { value: v, signed: true } };
    Expression::make_literal(Constant::make(t))
}

fn int_type(a: usize, b: usize) -> Box<Type> {
    Box::new(Type::new(TypeKind::Integer { signed: true, size: IntegerSize::Int }, Span::new(a, b)))
}

#[test]
fn type_spec_from_tokens() {
    match TypeSpec::make(tok(TokenKind::KeywordUnsigned, 3, 11)) {
        TypeSpec::Unsigned(s) => assert_eq!(s, Span::new(3, 11)),
        t => panic!("{:?}", t),
    }
    let t = Token { span: Span::new(0, 4), kind: TokenKind::TypeName, value: TokenValue::String("size_t".to_string()) };
    let spec = TypeSpec::make(t);
    match &spec {
        TypeSpec::TypeName(n, s) => {
            assert_eq!(n, "size_t");
            assert_eq!(*s, Span::new(0, 4));
        }
        t => panic!("{:?}", t),
    }
    assert_eq!(spec.unwrap_span(), Span::new(0, 4));
}

#[test]
fn decl_spec_collects_in_order() {
    // static const int
    let d = DeclSpec::push_storage(tok(TokenKind::KeywordStatic, 0, 6), None);
    assert_eq!(d.span, Span::new(0, 6));
    let d = DeclSpec::push_qual(tok(TokenKind::KeywordConst, 7, 12), Some(d));
    let d = DeclSpec::push_spec(TypeSpec::make(tok(TokenKind::KeywordInt, 13, 16)), Some(d));
    assert_eq!(d.span, Span::new(0, 16));
    assert_eq!(d.storage_class, vec![StorageClass::Static(Span::new(0, 6))]);
    assert_eq!(d.type_quals, vec![TypeQual::Const(Span::new(7, 12))]);
    assert_eq!(d.type_specs.len(), 1);
    assert_eq!(d.unwrap_span(), Span::new(0, 16));

    let q = TypeQual::make(None, tok(TokenKind::KeywordVolatile, 1, 9));
    let q = TypeQual::make(Some(q), tok(TokenKind::KeywordConst, 10, 15));
    assert_eq!(q, vec![TypeQual::Volatile(Span::new(1, 9)), TypeQual::Const(Span::new(10, 15))]);
    let empty = DeclSpec::new(Span::new(2, 2));
    assert!(empty.storage_class.is_empty() && empty.type_quals.is_empty() && empty.type_specs.is_empty());
}

#[test]
fn declarator_turns_pointers_around() {
    // * const * p : collected innermost first
    let inner = PointerChunk::make_pointer(tok(TokenKind::OpTimes, 8, 9), None);
    let outer = PointerChunk::make_pointer(tok(TokenKind::OpTimes, 0, 1), Some(vec![TypeQual::Const(Span::new(2, 7))]));
    let list = PointerChunk::make_list(inner);
    let list = PointerChunk::push_front(outer, list);
    let chunks = DeclChunk::make_list(DeclChunk::make_ident(id("p", 10, 11)));
    let d = Declarator::make(Some(list), chunks);
    assert_eq!(d.pointer_chunks.len(), 2);
    assert_eq!(d.pointer_chunks[0].span, Span::new(0, 1));
    assert_eq!(d.pointer_chunks[0].quals, vec![TypeQual::Const(Span::new(2, 7))]);
    assert_eq!(d.pointer_chunks[1].span, Span::new(8, 9));
    assert_eq!(d.span, Span::new(0, 11));

    let d = Declarator::make(None, DeclChunk::make_list(DeclChunk::make_ident(id("x", 4, 5))));
    assert_eq!(d.span, Span::new(4, 5));
    assert!(d.pointer_chunks.is_empty());
}

#[test]
fn decl_chunks_of_arrays_and_functions() {
    let a = DeclChunk::make_array(tok(TokenKind::Lbracket, 3, 4), Some(num(10, 4, 6)), tok(TokenKind::Rbracket, 6, 7));
    assert_eq!(a.span, Span::new(3, 7));
    match &a.chunk {
        DeclChunkKind::Array { size, size_modifier } => {
            assert!(size.is_some());
            assert_eq!(*size_modifier, ArraySizeModifier::Normal);
        }
        c => panic!("{:?}", c),
    }
    let open = DeclChunk::make_array(tok(TokenKind::Lbracket, 3, 4), None, tok(TokenKind::Rbracket, 4, 5));
    match &open.chunk {
        DeclChunkKind::Array { size: None, size_modifier } => assert_eq!(*size_modifier, ArraySizeModifier::Static),
        c => panic!("{:?}", c),
    }

    let f = DeclChunk::make_function(tok(TokenKind::Lparen, 5, 6), None, tok(TokenKind::Rparen, 6, 7));
    assert_eq!(f.span, Span::new(5, 7));
    match &f.chunk {
        DeclChunkKind::Function { param_list } => {
            assert!(param_list.inner.is_none());
            assert_eq!(param_list.l, Span::new(5, 6));
            assert_eq!(param_list.r, Span::new(6, 7));
        }
        c => panic!("{:?}", c),
    }

    // f(a, b) of an old-style definition
    let ids = make_ident_list(None, None, id("a", 2, 3));
    let ids = make_ident_list(Some(ids), Some(tok(TokenKind::Comma, 3, 4)), id("b", 5, 6));
    assert_eq!(ids.sep, vec![Span::new(3, 4)]);
    let old = DeclChunk::make_old_function(tok(TokenKind::Lparen, 1, 2), Some(ids), tok(TokenKind::Rparen, 6, 7));
    match &old.chunk {
        DeclChunkKind::Function { param_list } => {
            let p = param_list.inner.as_ref().unwrap();
            assert!(!p.is_variadic && !p.has_prototype);
            assert_eq!(p.span, Span::new(1, 7));
            assert_eq!(p.params.sep, vec![Span::new(3, 4)]);
            match (&p.params.list[0], &p.params.list[1]) {
                (ParamInfo::Ident(a, sa), ParamInfo::Ident(b, sb)) => {
                    assert_eq!((a.as_str(), *sa, b.as_str(), *sb), ("a", Span::new(2, 3), "b", Span::new(5, 6)));
                }
                x => panic!("{:?}", x),
            }
        }
        c => panic!("{:?}", c),
    }
}

#[test]
fn param_lists_grow() {
    let first = ParamInfo::Ident("a".to_string(), Span::new(2, 3));
    let list = ParamList::make_list(first);
    assert!(list.has_prototype && !list.is_variadic);
    assert_eq!(list.span, Span::new(2, 3));
    let list = ParamList::append_list(list, tok(TokenKind::Comma, 3, 4), ParamInfo::Ident("b".to_string(), Span::new(5, 9)));
    assert_eq!(list.span, Span::new(2, 9));
    assert_eq!(list.params.list.len(), 2);
    assert_eq!(list.params.sep, vec![Span::new(3, 4)]);
    let list = ParamList::set_variadic(list, tok(TokenKind::Comma, 9, 10));
    assert!(list.is_variadic);
    assert_eq!(list.params.sep, vec![Span::new(3, 4), Span::new(9, 10)]);

    // the parameter lists of prototypes
    let spec = DeclSpec::push_spec(TypeSpec::make(tok(TokenKind::KeywordInt, 0, 3)), None);
    let p1 = ParamDecl::make(spec, None, true);
    assert_eq!(p1.unwrap_span(), Span::new(0, 3));
    let list = ccfront::types::ast::func_info::ParamList::make_list(p1);
    assert!(list.has_prototype);
    let spec = DeclSpec::push_spec(TypeSpec::make(tok(TokenKind::KeywordChar, 5, 9)), None);
    let decl = Declarator::make(None, DeclChunk::make_list(DeclChunk::make_ident(id("c", 10, 11))));
    let p2 = ParamDecl::make(spec, Some(decl), false);
    assert_eq!(p2.unwrap_span(), Span::new(5, 11));
    let list = ccfront::types::ast::func_info::ParamList::push(list, tok(TokenKind::Comma, 3, 4), p2);
    assert!(!list.has_prototype);
    assert_eq!(list.span, Span::new(0, 11));
    let list = ccfront::types::ast::func_info::ParamList::set_variadic(
        list,
        tok(TokenKind::Comma, 11, 12),
        tok(TokenKind::OpEllipsis, 13, 16),
    );
    assert!(list.is_variadic);
    assert_eq!(list.span, Span::new(0, 16));
    assert_eq!(list.list.sep, vec![Span::new(3, 4), Span::new(11, 12)]);
}

#[test]
fn flat_chunks_reads_inside_out() {
    // * (*name)[3] : the outer pointer, then the nested declarator
    let inner_ptr = PointerChunk::make_list(PointerChunk::make_pointer(tok(TokenKind::OpTimes, 3, 4), None));
    let inner = Declarator::make(Some(inner_ptr), DeclChunk::make_list(DeclChunk::make_ident(id("name", 4, 8))));
    let paren = DeclChunk::make_paren(tok(TokenKind::Lparen, 2, 3), inner, tok(TokenKind::Rparen, 8, 9));
    let arr = DeclChunk::make_array(tok(TokenKind::Lbracket, 9, 10), Some(num(3, 10, 11)), tok(TokenKind::Rbracket, 11, 12));
    let chunks = DeclChunk::push(DeclChunk::make_list(paren), arr);
    let outer_ptr = PointerChunk::make_list(PointerChunk::make_pointer(tok(TokenKind::OpTimes, 0, 1), None));
    let d = Declarator::make(Some(outer_ptr), chunks);

    let mut out: Vec<TypeSuffix> = Vec::new();
    let name = flat_chunks(d, &mut out);
    assert_eq!(name.as_deref(), Some("name"));
    assert_eq!(out.len(), 3);
    match (&out[0], &out[1], &out[2]) {
        (TypeSuffix::Pointer(p0), TypeSuffix::DeclChunk(a), TypeSuffix::Pointer(p1)) => {
            assert_eq!(p0.span, Span::new(0, 1));
            assert_eq!(a.span, Span::new(9, 12));
            assert_eq!(p1.span, Span::new(3, 4));
        }
        x => panic!("{:?}", x),
    }

    // A declarator without a name gives none and keeps every part.
    let f = DeclChunk::make_function(tok(TokenKind::Lparen, 0, 1), None, tok(TokenKind::Rparen, 1, 2));
    let d = Declarator::make(None, DeclChunk::make_list(f));
    let mut out: Vec<TypeSuffix> = Vec::new();
    assert_eq!(flat_chunks(d, &mut out), None);
    assert_eq!(out.len(), 1);
}

#[test]
fn chunks2type_wraps_in_order() {
    // int *x[4]() : the parts wrap pointer, array and function in order
    let suffixes = vec![
        TypeSuffix::Pointer(PointerChunk::make_pointer(tok(TokenKind::OpTimes, 4, 5), None)),
        TypeSuffix::DeclChunk(DeclChunk::make_array(tok(TokenKind::Lbracket, 6, 7), Some(num(4, 7, 8)), tok(TokenKind::Rbracket, 8, 9))),
        TypeSuffix::DeclChunk(DeclChunk::make_function(tok(TokenKind::Lparen, 9, 10), None, tok(TokenKind::Rparen, 10, 11))),
    ];
    let t = chunks2type(suffixes, int_type(0, 3));
    assert_eq!(t.span, Span::new(9, 11));
    match &t.kind {
        TypeKind::Function { ret_ty, params, is_variadic } => {
            assert!(params.is_empty() && !is_variadic);
            assert_eq!(ret_ty.span, Span::new(6, 9));
            match &ret_ty.kind {
                TypeKind::Array { elem_ty, size } => {
                    // `[4]` keeps its literal size
                    assert_eq!(*size, Some(4));
                    match &elem_ty.kind {
                        TypeKind::Pointer(base) => {
                            assert_eq!(elem_ty.span, Span::new(4, 5));
                            assert!(base.is_integer());
                        }
                        k => panic!("{:?}", k),
                    }
                }
                k => panic!("{:?}", k),
            }
        }
        k => panic!("{:?}", k),
    }

    // An open array `a[]` has no size.
    let open = DeclChunk::make_array(tok(TokenKind::Lbracket, 1, 2), None, tok(TokenKind::Rbracket, 2, 3));
    let t = chunks2type(vec![TypeSuffix::DeclChunk(open)], int_type(0, 0));
    assert_eq!(t.span, Span::new(1, 3));
    match &t.kind {
        TypeKind::Array { size, .. } => assert_eq!(*size, None),
        k => panic!("{:?}", k),
    }
    // `a[7]` has size 7.
    let sized = DeclChunk {
        chunk: DeclChunkKind::Array { size: Some(num(7, 1, 2)), size_modifier: ArraySizeModifier::Normal },
        span: Span::new(0, 3),
    };
    let t = chunks2type(vec![TypeSuffix::DeclChunk(sized)], int_type(0, 0));
    match &t.kind {
        TypeKind::Array { size, .. } => assert_eq!(*size, Some(7)),
        k => panic!("{:?}", k),
    }
    // No suffix leaves the base.
    let t = chunks2type(Vec::new(), int_type(5, 8));
    assert_eq!(t.span, Span::new(5, 8));
}

#[test]
fn complete_decl_and_init_declarators() {
    let spec = Box::new(DeclSpec::push_spec(TypeSpec::make(tok(TokenKind::KeywordInt, 0, 3)), None));
    let decl = Declarator::make(None, DeclChunk::make_list(DeclChunk::make_ident(id("x", 4, 5))));
    let c = CompleteDecl::make(spec, decl, Some(Initializer::make_expr(num(1, 8, 9))));
    assert_eq!(c.span, Span::new(0, 5));
    assert!(c.init.is_some());

    let decl = Declarator::make(None, DeclChunk::make_list(DeclChunk::make_ident(id("y", 4, 5))));
    let init = InitDeclarator::make(decl, Some(tok(TokenKind::OpAssign, 6, 7)), Some(Initializer::make_expr(num(2, 8, 9))));
    assert_eq!(init.eq_span, Some(Span::new(6, 7)));
    let list = InitDeclarator::make_list(init);
    let decl = Declarator::make(None, DeclChunk::make_list(DeclChunk::make_ident(id("z", 11, 12))));
    let list = InitDeclarator::push(list, tok(TokenKind::Comma, 9, 10), InitDeclarator::make(decl, None, None));
    assert_eq!(list.list.len(), 2);
    assert_eq!(list.sep, vec![Span::new(9, 10)]);
    assert_eq!(list.list[1].eq_span, None);

    let spec = DeclSpec::push_spec(TypeSpec::make(tok(TokenKind::KeywordLong, 0, 4)), None);
    let c = type_info::CompleteDecl::make(spec, None);
    assert!(c.declarator.is_none());
}

#[test]
fn struct_and_enum_specifiers() {
    let s = StructOrUnionSpec::make(tok(TokenKind::KeywordUnion, 0, 5), id("u", 6, 7));
    assert_eq!(s.kind, StructKind::Union(Span::new(0, 5)));
    assert_eq!(s.name.as_deref(), Some("u"));
    assert_eq!(s.span, Span::new(0, 7));
    assert!(s.members.is_none());

    let spec = DeclSpec::push_spec(TypeSpec::make(tok(TokenKind::KeywordInt, 10, 13)), None);
    let decl = Declarator::make(None, DeclChunk::make_list(DeclChunk::make_ident(id("a", 14, 15))));
    let sd = StructDeclarator::make(Some(decl), Some(*num(3, 16, 17)));
    assert_eq!(sd.span, Span::new(14, 17));
    let sds = StructDeclarator::make_list(None, tok(TokenKind::Comma, 17, 18), sd);
    assert_eq!(sds.sep, vec![Span::new(17, 18)]);
    let member = StructMember { decl_spec: spec, declarators: sds, span: Span::new(10, 18) };
    let members = StructMember::make_list(None, member);
    let s = StructOrUnionSpec::make_decl(
        tok(TokenKind::KeywordStruct, 0, 6),
        None,
        tok(TokenKind::Lbrace, 8, 9),
        members,
        tok(TokenKind::Rbrace, 19, 20),
    );
    assert_eq!(s.kind, StructKind::Struct(Span::new(0, 6)));
    assert!(s.name.is_none());
    assert_eq!(s.span, Span::new(0, 20));
    let m = s.members.as_ref().unwrap();
    assert_eq!((m.l, m.r, m.inner.len()), (Span::new(8, 9), Span::new(19, 20), 1));

    let bare = StructDeclarator::make(None, Some(*num(2, 5, 6)));
    assert_eq!(bare.span, Span::new(5, 6));

    let e1 = Enumerator::make(id("A", 10, 11), None);
    let e2 = Enumerator::make(id("B", 13, 14), Some(*num(5, 17, 18)));
    assert_eq!(e2.span, Span::new(13, 18));
    let list = Enumerator::append_list(Enumerator::make_list(e1), tok(TokenKind::Comma, 11, 12), e2);
    let e = EnumSpec::make_detail(tok(TokenKind::KeywordEnum, 0, 4), Some(id("E", 5, 6)), tok(TokenKind::Lbrace, 8, 9), list, tok(TokenKind::Rbrace, 19, 20));
    assert_eq!(e.name.as_deref(), Some("E"));
    assert_eq!(e.span, Span::new(0, 20));
    let enums = e.enums.as_ref().unwrap();
    assert_eq!(enums.inner.list.len(), 2);
    assert_eq!(enums.inner.sep, vec![Span::new(11, 12)]);
    let e = EnumSpec::make_simple(tok(TokenKind::KeywordEnum, 0, 4), id("E", 5, 6));
    assert_eq!(e.span, Span::new(0, 6));
    assert!(e.enums.is_none());
    match TypeSpec::make_enum(Box::new(e)) {
        t @ TypeSpec::Enum(_) => assert_eq!(t.unwrap_span(), Span::new(0, 6)),
        t => panic!("{:?}", t),
    }
}

#[test]
fn type_info_specifiers() {
    let s = type_info::StructUnionSpec::make_decl(tok(TokenKind::KeywordStruct, 0, 6), id("s", 7, 8));
    assert_eq!(s.kind, type_info::StructKind::Struct(Span::new(0, 6)));
    assert_eq!(s.span, Span::new(0, 8));

    let spec = DeclSpec::push_spec(TypeSpec::make(tok(TokenKind::KeywordInt, 11, 14)), None);
    let decl = Declarator::make(None, DeclChunk::make_list(DeclChunk::make_ident(id("a", 15, 16))));
    let sd = type_info::StructDeclarator::make(Some(decl), None, None);
    assert_eq!(sd.span, Span::new(15, 16));
    let lone = type_info::StructDeclarator::make(None, Some(tok(TokenKind::Colon, 17, 18)), Some(num(4, 19, 20)));
    assert_eq!(lone.span, Span::new(17, 20));
    let list = type_info::StructDeclarator::push(type_info::StructDeclarator::make_list(sd), tok(TokenKind::Comma, 16, 17), lone);
    assert_eq!(list.sep, vec![Span::new(16, 17)]);
    let member = type_info::StructDecl::make(spec, list, tok(TokenKind::Semicolon, 20, 21));
    assert_eq!(member.span, Span::new(11, 21));
    let members = type_info::StructDecl::make_list(member);
    let s = type_info::StructUnionSpec::make_def(
        tok(TokenKind::KeywordUnion, 0, 5),
        Some(id("u", 6, 7)),
        tok(TokenKind::Lbrace, 9, 10),
        members,
        tok(TokenKind::Rbrace, 22, 23),
    );
    assert_eq!(s.name.as_deref(), Some("u"));
    assert_eq!(s.span, Span::new(0, 23));

    let e = type_info::Enumerator::make(id("X", 3, 4), Some(num(1, 7, 8)));
    assert_eq!(e.span, Span::new(3, 8));
    let list = type_info::Enumerator::push(
        type_info::Enumerator::make_list(e),
        tok(TokenKind::Comma, 8, 9),
        type_info::Enumerator::make(id("Y", 10, 11), None),
    );
    let anon = type_info::EnumSpec::make_anon(tok(TokenKind::KeywordEnum, 0, 4), None, tok(TokenKind::Lbrace, 5, 6), list, tok(TokenKind::Rbrace, 12, 13));
    assert!(anon.name.is_none());
    assert_eq!(anon.span, Span::new(0, 13));
    let named = type_info::EnumSpec::make_named(tok(TokenKind::KeywordEnum, 0, 4), id("T", 5, 6));
    assert_eq!(named.span, Span::new(0, 6));
}

#[test]
fn translation_units_and_blocks() {
    let decl = DeclStmt { decls: Vec::new(), span: Span::new(0, 10) };
    let unit = TranslationUnit::make_translation_unit(ExternalDeclaration::make_decl(decl));
    assert_eq!(unit.unwrap_span(), Span::new(0, 10));
    let decl = DeclStmt { decls: Vec::new(), span: Span::new(12, 20) };
    let unit = TranslationUnit::insert_ext_decl(unit, ExternalDeclaration::make_decl(decl));
    assert_eq!(unit.ext_decls.len(), 2);
    assert_eq!(unit.unwrap_span(), Span::new(0, 20));
    assert_eq!(unit.ext_decls[1].unwrap_span(), Span::new(12, 20));

    let stmt = Statement::make_continue_break(tok(TokenKind::KeywordBreak, 3, 8));
    let items = BlockItem::make_list(BlockItem::make_stmt(stmt));
    let items = BlockItem::push(items, BlockItem::make_decl(DeclStmt { decls: Vec::new(), span: Span::new(9, 12) }));
    let block = Statement::make_compound(tok(TokenKind::Lbrace, 1, 2), Some(items), tok(TokenKind::Rbrace, 13, 14));
    assert_eq!(block.span, Span::new(1, 14));
    match &block.kind {
        StatementKind::Block(b) => assert_eq!(b.items.len(), 2),
        k => panic!("{:?}", k),
    }
    let empty = Statement::make_compound(tok(TokenKind::Lbrace, 1, 2), None, tok(TokenKind::Rbrace, 2, 3));
    match &empty.kind {
        StatementKind::Block(b) => assert!(b.items.is_empty()),
        k => panic!("{:?}", k),
    }

    let list = Initializer::make_list(Initializer::make_expr(num(1, 1, 2)));
    let list = Initializer::push(list, tok(TokenKind::Comma, 2, 3), Initializer::make_expr(num(2, 4, 5)));
    match Initializer::make_init_list(tok(TokenKind::Lbrace, 0, 1), list, Some(tok(TokenKind::Comma, 5, 6)), tok(TokenKind::Rbrace, 7, 8)) {
        Initializer::List(l) => assert_eq!(l.len(), 2),
        i => panic!("{:?}", i),
    }
}

#[test]
fn ident_list_without_comma() {
    let l = make_ident_list(None, None, id("a", 0, 1));
    assert_eq!(l.list.len(), 1);
    assert!(l.sep.is_empty());
    let l2: SepList<Token> = make_ident_list(Some(l), None, id("b", 2, 3));
    assert_eq!(l2.list.len(), 2);
    assert!(l2.sep.is_empty());
}
