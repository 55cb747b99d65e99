//! Intermediate nodes of struct, union and enum declarations.

use crate::types::ast::ast_nodes::Expression;
use crate::types::ast::decl_info::{tokens_span, DeclSpec, Declarator};
use crate::types::lex::token::{into_text, text_of, Token, TokenKind};
use crate::types::span::{spec_merge, Delim, SepList, Span};
use vstd::prelude::*;

verus! {

/// Whether an aggregate is a struct or a union, with the keyword's span.
#[derive(Debug, Clone, Copy, PartialEq, Eq, Structural)]
pub enum StructKind {
    Struct(Span),
    Union(Span),
}

/// The aggregate kind a `struct` or `union` keyword stands for.
pub open spec fn struct_kind_of(t: Token) -> Option<StructKind> {
    match t.kind {
        TokenKind::KeywordStruct => Some(StructKind::Struct(t.span)),
        TokenKind::KeywordUnion => Some(StructKind::Union(t.span)),
        _ => None,
    }
}

/// Each `struct` or `union` keyword stands for the aggregate kind of the same name, carrying the token's span, and
/// every other token kind for none.
pub proof fn lemma_struct_kind_of_table(t: Token)
    ensures
        t.kind == TokenKind::KeywordStruct ==> struct_kind_of(t) == Some(StructKind::Struct(t.span)),
        t.kind == TokenKind::KeywordUnion ==> struct_kind_of(t) == Some(StructKind::Union(t.span)),
        !(t.kind == TokenKind::KeywordStruct || t.kind == TokenKind::KeywordUnion) ==> struct_kind_of(t) is None,
{
}

/// The aggregate kind of a `struct` or `union` keyword token.
pub fn struct_kind(kind: &Token) -> (r: StructKind)
    requires
        struct_kind_of(*kind) is Some,
    ensures
        struct_kind_of(*kind) == Some(r),
{
    match kind.kind {
        TokenKind::KeywordStruct => StructKind::Struct(kind.span),
        _ => StructKind::Union(kind.span),
    }
}

/// `name` holds the text of `token`, and both are absent or both present.
pub open spec fn name_from(name: Option<String>, token: Option<Token>) -> bool {
    match (name, token) {
        (Some(n), Some(t)) => n@ == text_of(t),
        (None, None) => true,
        _ => false,
    }
}

/// The text of an optional name token.
pub fn opt_name(name: Option<Token>) -> (r: Option<String>)
    requires
        name matches Some(t) ==> t.value is String,
    ensures
        name_from(r, name),
{
    match name {
        Some(t) => Some(into_text(t)),
        None => None,
    }
}

/// A struct or union specifier: its kind, its tag if any, its members if
/// it is defined here, and its span.
#[derive(Debug)]
pub struct StructOrUnionSpec {
    pub kind: StructKind,
    pub name: Option<String>,
    pub members: Option<Delim<Vec<StructMember>>>,
    pub span: Span,
}

impl StructOrUnionSpec {
    /// `struct name`: a reference to a tagged aggregate.
    pub fn make(kind: Token, name: Token) -> (r: StructOrUnionSpec)
        requires
            struct_kind_of(kind) is Some,
            name.value is String,
        ensures
            struct_kind_of(kind) == Some(r.kind),
            r.name matches Some(n) && n@ == text_of(name),
            r.members is None,
            r.span == spec_merge(kind.span, name.span),
    {
        let span = kind.span.merge(&name.span);
        let k = struct_kind(&kind);
        StructOrUnionSpec { kind: k, name: Some(into_text(name)), members: None, span }
    }

    /// `struct name? { members }`: a definition.
    pub fn make_decl(kind: Token, name: Option<Token>, lparen: Token, members: Vec<StructMember>, rparen: Token) -> (r:
        StructOrUnionSpec)
        requires
            struct_kind_of(kind) is Some,
            name matches Some(t) ==> t.value is String,
        ensures
            struct_kind_of(kind) == Some(r.kind),
            name_from(r.name, name),
            r.members == Some(Delim { l: lparen.span, inner: members, r: rparen.span }),
            r.span == spec_merge(kind.span, rparen.span),
    {
        let span = kind.span.merge(&rparen.span);
        let k = struct_kind(&kind);
        let name = opt_name(name);
        StructOrUnionSpec { kind: k, name, members: Some(Delim { l: lparen.span, inner: members, r: rparen.span }), span }
    }
}

/// A member declaration of an aggregate: its specifiers and declarators.
#[derive(Debug)]
pub struct StructMember {
    pub decl_spec: DeclSpec,
    pub declarators: SepList<StructDeclarator>,
    pub span: Span,
}

impl StructMember {
    /// Appends a member to the list, which may be absent.
    pub fn make_list(list: Option<Vec<StructMember>>, member: StructMember) -> (r: Vec<StructMember>)
        ensures
            r@ == (match list {
                Some(l) => l@,
                None => Seq::empty(),
            }).push(member),
    {
        let mut list = match list {
            Some(l) => l,
            None => Vec::new(),
        };
        list.push(member);
        list
    }
}

/// A member declarator: a declarator, a bit-field width, or both.
#[derive(Debug)]
pub struct StructDeclarator {
    pub declarator: Option<Declarator>,
    pub bit_field: Option<Expression>,
    pub span: Span,
}

impl StructDeclarator {
    /// A member declarator; at least one of the two parts must be given.
    /// The span covers the parts given.
    pub fn make(declarator: Option<Declarator>, bit_field: Option<Expression>) -> (r: StructDeclarator)
        requires
            declarator is Some || bit_field is Some,
        ensures
            r.declarator == declarator,
            r.bit_field == bit_field,
            r.span == (match (declarator, bit_field) {
                (Some(d), Some(b)) => spec_merge(d.span, b.span),
                (None, Some(b)) => b.span,
                (Some(d), None) => d.span,
                (None, None) => r.span,
            }),
    {
        let span = match (&declarator, &bit_field) {
            (Some(d), Some(b)) => d.span.merge(&b.span),
            (None, Some(b)) => b.span,
            (Some(d), None) => d.span,
            (None, None) => Span { start: 0, end: 0 },
        };
        StructDeclarator { declarator, bit_field, span }
    }

    /// Appends a declarator and the comma before it to the list, which may
    /// be absent.
    pub fn make_list(list: Option<SepList<StructDeclarator>>, comma: Token, struct_declarator: StructDeclarator) -> (r:
        SepList<StructDeclarator>)
        ensures
            r.list@ == (match list {
                Some(l) => l.list@,
                None => Seq::empty(),
            }).push(struct_declarator),
            r.sep@ == (match list {
                Some(l) => l.sep@,
                None => Seq::empty(),
            }).push(comma.span),
    {
        let mut list = match list {
            Some(l) => l,
            None => SepList { list: Vec::new(), sep: Vec::new() },
        };
        list.push_item(struct_declarator);
        list.push_sep(comma.span);
        list
    }
}

/// An enum specifier: its tag if any, its enumerators if defined here,
/// and its span.
#[derive(Debug)]
pub struct EnumSpec {
    pub name: Option<String>,
    pub enums: Option<Delim<SepList<Enumerator>>>,
    pub span: Span,
}

impl EnumSpec {
    /// `enum name? { enumerators }`: a definition.
    pub fn make_detail(keyword_enum: Token, name: Option<Token>, lbrace: Token, enums: SepList<Enumerator>, rbrace:
        Token) -> (r: EnumSpec)
        requires
            name matches Some(t) ==> t.value is String,
        ensures
            name_from(r.name, name),
            r.enums == Some(Delim { l: lbrace.span, inner: enums, r: rbrace.span }),
            r.span == tokens_span(keyword_enum, rbrace),
    {
        let span = Span { start: keyword_enum.span.start, end: rbrace.span.end };
        let name = opt_name(name);
        EnumSpec { name, enums: Some(Delim { l: lbrace.span, inner: enums, r: rbrace.span }), span }
    }

    /// `enum name`: a reference to a tagged enum.
    pub fn make_simple(keyword_enum: Token, name: Token) -> (r: EnumSpec)
        requires
            name.value is String,
        ensures
            r.name matches Some(n) && n@ == text_of(name),
            r.enums is None,
            r.span == tokens_span(keyword_enum, name),
    {
        let span = Span { start: keyword_enum.span.start, end: name.span.end };
        EnumSpec { name: Some(into_text(name)), enums: None, span }
    }
}

/// An enumerator with its value, if one is given.
#[derive(Debug)]
pub struct Enumerator {
    pub name: String,
    pub value: Option<Expression>,
    pub span: Span,
}

impl Enumerator {
    /// A list of one enumerator.
    pub fn make_list(enumerator: Enumerator) -> (r: SepList<Enumerator>)
        ensures
            r.list@ == seq![enumerator],
            r.sep@.len() == 0,
    {
        SepList::new(enumerator)
    }

    /// Appends an enumerator and the comma before it.
    pub fn append_list(enums: SepList<Enumerator>, comma: Token, enumerator: Enumerator) -> (r: SepList<Enumerator>)
        ensures
            r.list@ == enums.list@.push(enumerator),
            r.sep@ == enums.sep@.push(comma.span),
    {
        let mut enums = enums;
        enums.push_item(enumerator);
        enums.push_sep(comma.span);
        enums
    }

    /// `name` or `name = value`, spanning both.
    pub fn make(name: Token, value: Option<Expression>) -> (r: Enumerator)
        requires
            name.value is String,
        ensures
            r.name@ == text_of(name),
            r.value == value,
            r.span == (match value {
                Some(x) => spec_merge(name.span, x.span),
                None => name.span,
            }),
    {
        let span = match &value {
            None => name.span,
            Some(x) => name.span.merge(&x.span),
        };
        Enumerator { name: into_text(name), value, span }
    }
}

} // verus!
