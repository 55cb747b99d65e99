//! Intermediate nodes of aggregate and enum declarations, as the grammar
//! rules of declarations build them.

use crate::types::ast::ast_nodes::Expression;
use crate::types::ast::decl_info::{tokens_span, DeclSpec, Declarator};
use crate::types::ast::struct_info::{name_from, opt_name};
use crate::types::lex::token::{into_text, text_of, Token, TokenKind};
use crate::types::span::{spec_merge, Delim, SepList, Span};
use vstd::prelude::*;

verus! {

/// A member declaration: specifiers and qualifiers, the declarators, and
/// the span up to the semicolon.
#[derive(Debug)]
pub struct StructDecl {
    pub spec_qual: DeclSpec,
    pub list: SepList<StructDeclarator>,
    pub span: Span,
}

impl StructDecl {
    /// A member declaration ended by `semi`.
    pub fn make(spec_qual: DeclSpec, list: SepList<StructDeclarator>, semi: Token) -> (r: Box<StructDecl>)
        ensures
            r.spec_qual == spec_qual,
            r.list == list,
            r.span == spec_merge(semi.span, spec_qual.span),
    {
        let span = semi.span.merge(&spec_qual.span);
        Box::new(StructDecl { spec_qual, list, span })
    }

    /// A list of one member declaration.
    pub fn make_list(struct_decl: Box<StructDecl>) -> (r: Vec<Box<StructDecl>>)
        ensures
            r@ == seq![struct_decl],
    {
        vec![struct_decl]
    }

    /// Appends a member declaration.
    pub fn push(list: Vec<Box<StructDecl>>, struct_decl: Box<StructDecl>) -> (r: Vec<Box<StructDecl>>)
        ensures
            r@ == list@.push(struct_decl),
    {
        let mut list = list;
        list.push(struct_decl);
        list
    }
}

/// Whether an aggregate is a struct or a union, with the keyword's span.
#[derive(Debug, Clone, Copy, PartialEq, Eq, Structural)]
pub enum StructKind {
    Struct(Span),
    Union(Span),
}

/// The aggregate kind a `struct` or `union` keyword stands for.
pub open spec fn struct_kind_of(t: Token) -> Option<StructKind> {
    match t.kind {
        TokenKind::KeywordStruct => Some(StructKind::Struct(t.span)),
        TokenKind::KeywordUnion => Some(StructKind::Union(t.span)),
        _ => None,
    }
}

/// Each `struct` or `union` keyword stands for the aggregate kind of the same name, carrying the token's span, and
/// every other token kind for none.
pub proof fn lemma_struct_kind_of_table(t: Token)
    ensures
        t.kind == TokenKind::KeywordStruct ==> struct_kind_of(t) == Some(StructKind::Struct(t.span)),
        t.kind == TokenKind::KeywordUnion ==> struct_kind_of(t) == Some(StructKind::Union(t.span)),
        !(t.kind == TokenKind::KeywordStruct || t.kind == TokenKind::KeywordUnion) ==> struct_kind_of(t) is None,
{
}

/// The aggregate kind of a `struct` or `union` keyword token.
fn struct_kind(kind: &Token) -> (r: StructKind)
    requires
        struct_kind_of(*kind) is Some,
    ensures
        struct_kind_of(*kind) == Some(r),
{
    match kind.kind {
        TokenKind::KeywordStruct => StructKind::Struct(kind.span),
        _ => StructKind::Union(kind.span),
    }
}

/// A struct or union specifier: its kind, its tag if any, its members if
/// defined here, and its span.
#[derive(Debug)]
pub struct StructUnionSpec {
    pub kind: StructKind,
    pub name: Option<String>,
    pub members: Option<Delim<Vec<Box<StructDecl>>>>,
    pub span: Span,
}

impl StructUnionSpec {
    /// `struct name`: a reference to a tagged aggregate.
    pub fn make_decl(kind: Token, name: Token) -> (r: Box<StructUnionSpec>)
        requires
            struct_kind_of(kind) is Some,
            name.value is String,
        ensures
            struct_kind_of(kind) == Some(r.kind),
            r.name matches Some(n) && n@ == text_of(name),
            r.members is None,
            r.span == spec_merge(kind.span, name.span),
    {
        let span = kind.span.merge(&name.span);
        let k = struct_kind(&kind);
        Box::new(StructUnionSpec { kind: k, name: Some(into_text(name)), members: None, span })
    }

    /// `struct name? { members }`: a definition.
    pub fn make_def(kind: Token, name: Option<Token>, lparen: Token, members: Vec<Box<StructDecl>>, rparen: Token) -> (r:
        Box<StructUnionSpec>)
        requires
            struct_kind_of(kind) is Some,
            name matches Some(t) ==> t.value is String,
        ensures
            struct_kind_of(kind) == Some(r.kind),
            name_from(r.name, name),
            r.members == Some(Delim { l: lparen.span, inner: members, r: rparen.span }),
            r.span == spec_merge(kind.span, rparen.span),
    {
        let span = kind.span.merge(&rparen.span);
        let k = struct_kind(&kind);
        let name = opt_name(name);
        let members = Some(Delim { l: lparen.span, inner: members, r: rparen.span });
        Box::new(StructUnionSpec { kind: k, name, members, span })
    }
}

/// A member declarator: a declarator, a bit-field width, or both.
#[derive(Debug)]
pub struct StructDeclarator {
    pub declarator: Option<Declarator>,
    pub bit_field: Option<Box<Expression>>,
    pub span: Span,
}

impl StructDeclarator {
    /// A member declarator; at least one of the two parts must be given,
    /// and a lone width comes with its colon. The span covers the parts,
    /// from the colon for a lone width.
    pub fn make(declarator: Option<Declarator>, colon: Option<Token>, bit_field: Option<Box<Expression>>) -> (r:
        StructDeclarator)
        requires
            declarator is Some || bit_field is Some,
            declarator is None ==> colon is Some,
        ensures
            r.declarator == declarator,
            r.bit_field == bit_field,
            r.span == (match (declarator, bit_field) {
                (Some(d), Some(b)) => spec_merge(d.span, b.span),
                (None, Some(b)) => spec_merge(colon->0.span, b.span),
                (Some(d), None) => d.span,
                (None, None) => r.span,
            }),
    {
        let span = match (&declarator, &bit_field) {
            (Some(d), Some(b)) => d.span.merge(&b.span),
            (None, Some(b)) => colon.unwrap().span.merge(&b.span),
            (Some(d), None) => d.span,
            (None, None) => Span { start: 0, end: 0 },
        };
        StructDeclarator { declarator, bit_field, span }
    }

    /// A list of one member declarator.
    pub fn make_list(struct_declarator: StructDeclarator) -> (r: SepList<StructDeclarator>)
        ensures
            r.list@ == seq![struct_declarator],
            r.sep@.len() == 0,
    {
        SepList::new(struct_declarator)
    }

    /// Appends a member declarator after a comma.
    pub fn push(list: SepList<StructDeclarator>, comma: Token, struct_declarator: StructDeclarator) -> (r: SepList<
        StructDeclarator,
    >)
        ensures
            r.list@ == list.list@.push(struct_declarator),
            r.sep@ == list.sep@.push(comma.span),
    {
        let mut list = list;
        list.push_sep(comma.span);
        list.push_item(struct_declarator);
        list
    }
}

/// An enum specifier: its tag if any, its enumerators if defined here,
/// and its span.
#[derive(Debug)]
pub struct EnumSpec {
    pub name: Option<String>,
    pub enums: Option<Delim<SepList<Enumerator>>>,
    pub span: Span,
}

impl EnumSpec {
    /// `enum name? { enumerators }`: a definition.
    pub fn make_anon(keyword_enum: Token, name: Option<Token>, lbrace: Token, enums: SepList<Enumerator>, rbrace: Token) -> (r:
        Box<EnumSpec>)
        requires
            name matches Some(t) ==> t.value is String,
        ensures
            name_from(r.name, name),
            r.enums == Some(Delim { l: lbrace.span, inner: enums, r: rbrace.span }),
            r.span == tokens_span(keyword_enum, rbrace),
    {
        let span = Span { start: keyword_enum.span.start, end: rbrace.span.end };
        let name = opt_name(name);
        Box::new(EnumSpec { name, enums: Some(Delim { l: lbrace.span, inner: enums, r: rbrace.span }), span })
    }

    /// `enum name`: a reference to a tagged enum.
    pub fn make_named(keyword_enum: Token, name: Token) -> (r: Box<EnumSpec>)
        requires
            name.value is String,
        ensures
            r.name matches Some(n) && n@ == text_of(name),
            r.enums is None,
            r.span == tokens_span(keyword_enum, name),
    {
        let span = Span { start: keyword_enum.span.start, end: name.span.end };
        Box::new(EnumSpec { name: Some(into_text(name)), enums: None, span })
    }
}

/// An enumerator with its value, if one is given.
#[derive(Debug)]
pub struct Enumerator {
    pub name: String,
    pub value: Option<Box<Expression>>,
    pub span: Span,
}

impl Enumerator {
    /// A list of one enumerator.
    pub fn make_list(enumerator: Enumerator) -> (r: SepList<Enumerator>)
        ensures
            r.list@ == seq![enumerator],
            r.sep@.len() == 0,
    {
        SepList::new(enumerator)
    }

    /// Appends an enumerator and the comma before it.
    pub fn push(enums: SepList<Enumerator>, comma: Token, enumerator: Enumerator) -> (r: SepList<Enumerator>)
        ensures
            r.list@ == enums.list@.push(enumerator),
            r.sep@ == enums.sep@.push(comma.span),
    {
        let mut enums = enums;
        enums.push_item(enumerator);
        enums.push_sep(comma.span);
        enums
    }

    /// `name` or `name = value`, spanning both.
    pub fn make(name: Token, value: Option<Box<Expression>>) -> (r: Enumerator)
        requires
            name.value is String,
        ensures
            r.name@ == text_of(name),
            r.value == value,
            r.span == (match value {
                Some(x) => spec_merge(name.span, x.span),
                None => name.span,
            }),
    {
        let span = match &value {
            None => name.span,
            Some(x) => name.span.merge(&x.span),
        };
        Enumerator { name: into_text(name), value, span }
    }
}

/// A declaration without initializer: specifiers and an optional
/// declarator, as in a type name or a parameter.
#[derive(Debug)]
pub struct CompleteDecl {
    pub decl_spec: DeclSpec,
    pub declarator: Option<Declarator>,
}

impl CompleteDecl {
    /// The declaration of the given parts.
    pub fn make(decl_spec: DeclSpec, declarator: Option<Declarator>) -> (r: Box<CompleteDecl>)
        ensures
            r.decl_spec == decl_spec,
            r.declarator == declarator,
    {
        Box::new(CompleteDecl { decl_spec, declarator })
    }
}

} // verus!
