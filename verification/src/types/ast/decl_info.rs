//! Intermediate nodes of declarations.

use crate::types::ast::ast_nodes::{Expression, ExpressionKind, Initializer, Qualifiers, StorageClass};
use crate::types::ast::struct_info::{EnumSpec, StructOrUnionSpec};
use crate::types::lex::token::{into_text, text_of, Token, TokenKind};
use crate::types::span::{spec_merge, Delim, SepList, Span};
use vstd::prelude::*;

verus! {

/// A type qualifier as written, with its span.
#[derive(Debug, Clone, Copy, PartialEq, Eq, Structural)]
pub enum TypeQual {
    Const(Span),
    Volatile(Span),
}

impl TypeQual {
    /// The span of the qualifier.
    pub fn unwrap_span(&self) -> (r: Span)
        ensures
            r == match *self {
                TypeQual::Const(x) => x,
                TypeQual::Volatile(x) => x,
            },
    {
        match self {
            TypeQual::Const(x) | TypeQual::Volatile(x) => *x,
        }
    }
}

/// One `*` of a declarator with its qualifiers.
#[derive(Debug, Clone)]
pub struct PointerChunk {
    pub quals: Vec<TypeQual>,
    pub span: Span,
}

/// How the size of an array declarator is given.
///
/// - `Normal`: `int a[10];`
/// - `Static`: `int a[] = ...;`
/// - `VLA`: `int a[*];`
#[derive(Debug, Clone, Copy, PartialEq, Eq, Structural)]
pub enum ArraySizeModifier {
    Normal,
    Static,
    VLA,
}

/// The qualifiers `q` has once `qual` is added.
pub open spec fn spec_set_qual(q: Qualifiers, qual: TypeQual) -> Qualifiers {
    match qual {
        TypeQual::Const(_) => Qualifiers { is_const: true, is_volatile: q.is_volatile },
        TypeQual::Volatile(_) => Qualifiers { is_const: q.is_const, is_volatile: true },
    }
}

/// `qual` is already among the qualifiers `q`.
pub open spec fn is_duplicate_qual(q: Qualifiers, qual: TypeQual) -> bool {
    match qual {
        TypeQual::Const(_) => q.is_const,
        TypeQual::Volatile(_) => q.is_volatile,
    }
}

impl Qualifiers {
    /// Qualifiers with the given flags.
    pub fn new(is_const: bool, is_volatile: bool) -> (r: Self)
        ensures
            r.is_const == is_const,
            r.is_volatile == is_volatile,
    {
        Self { is_const, is_volatile }
    }

    /// Adds a qualifier; a qualifier may be given only once.
    pub fn set(&mut self, type_qual: TypeQual)
        requires
            !is_duplicate_qual(*old(self), type_qual),
        ensures
            *final(self) == spec_set_qual(*old(self), type_qual),
    {
        match type_qual {
            TypeQual::Const(_x) => {
                self.is_const = true;
            },
            TypeQual::Volatile(_x) => {
                self.is_volatile = true;
            },
        }
    }

    /// Whether adding `type_qual` would repeat a qualifier.
    pub fn has(&self, type_qual: &TypeQual) -> (r: bool)
        ensures
            r == is_duplicate_qual(*self, *type_qual),
    {
        match type_qual {
            TypeQual::Const(_) => self.is_const,
            TypeQual::Volatile(_) => self.is_volatile,
        }
    }
}

impl Default for Qualifiers {
    fn default() -> (r: Self)
        ensures
            !r.is_const,
            !r.is_volatile,
    {
        Self::new(false, false)
    }
}

/// Adding qualifiers does not depend on their order.
pub proof fn lemma_set_qual_commutes(q: Qualifiers, a: TypeQual, b: TypeQual)
    ensures
        spec_set_qual(spec_set_qual(q, a), b) == spec_set_qual(spec_set_qual(q, b), a),
{
}

/// Once a qualifier is added, adding it again is refused.
pub proof fn lemma_set_qual_then_duplicate(q: Qualifiers, a: TypeQual)
    ensures
        is_duplicate_qual(spec_set_qual(q, a), a),
{
}

/// The span from the start of `first` to the end of `last`.
pub open spec fn tokens_span(first: Token, last: Token) -> Span {
    Span { start: first.span.start, end: last.span.end }
}

/// The items of an optional list; none when it is absent.
pub open spec fn opt_items<T>(list: Option<Vec<T>>) -> Seq<T> {
    match list {
        Some(l) => l@,
        None => Seq::empty(),
    }
}

/// A type specifier as written.
#[derive(Debug)]
pub enum TypeSpec {
    Void(Span),
    Char(Span),
    Short(Span),
    Int(Span),
    Long(Span),
    Signed(Span),
    Unsigned(Span),
    Float(Span),
    Double(Span),
    StructOrUnion(Box<StructOrUnionSpec>),
    Enum(Box<EnumSpec>),
    TypeName(String, Span),
}

/// The span of a type specifier.
pub open spec fn type_spec_span(t: TypeSpec) -> Span {
    match t {
        TypeSpec::Void(x) => x,
        TypeSpec::Char(x) => x,
        TypeSpec::Short(x) => x,
        TypeSpec::Int(x) => x,
        TypeSpec::Long(x) => x,
        TypeSpec::Signed(x) => x,
        TypeSpec::Unsigned(x) => x,
        TypeSpec::Float(x) => x,
        TypeSpec::Double(x) => x,
        TypeSpec::TypeName(_, x) => x,
        TypeSpec::StructOrUnion(x) => x.span,
        TypeSpec::Enum(x) => x.span,
    }
}

/// The type specifier a keyword token stands for; `None` for any other
/// token (a type name is read by `TypeSpec::make` from its text).
pub open spec fn keyword_type_spec(t: Token) -> Option<TypeSpec> {
    match t.kind {
        TokenKind::KeywordVoid => Some(TypeSpec::Void(t.span)),
        TokenKind::KeywordChar => Some(TypeSpec::Char(t.span)),
        TokenKind::KeywordShort => Some(TypeSpec::Short(t.span)),
        TokenKind::KeywordInt => Some(TypeSpec::Int(t.span)),
        TokenKind::KeywordLong => Some(TypeSpec::Long(t.span)),
        TokenKind::KeywordSigned => Some(TypeSpec::Signed(t.span)),
        TokenKind::KeywordUnsigned => Some(TypeSpec::Unsigned(t.span)),
        TokenKind::KeywordFloat => Some(TypeSpec::Float(t.span)),
        TokenKind::KeywordDouble => Some(TypeSpec::Double(t.span)),
        _ => None,
    }
}

/// Each type keyword stands for the type specifier of the same name, carrying the token's span, and
/// every other token kind for none.
pub proof fn lemma_keyword_type_spec_table(t: Token)
    ensures
        t.kind == TokenKind::KeywordVoid ==> keyword_type_spec(t) == Some(TypeSpec::Void(t.span)),
        t.kind == TokenKind::KeywordChar ==> keyword_type_spec(t) == Some(TypeSpec::Char(t.span)),
        t.kind == TokenKind::KeywordShort ==> keyword_type_spec(t) == Some(TypeSpec::Short(t.span)),
        t.kind == TokenKind::KeywordInt ==> keyword_type_spec(t) == Some(TypeSpec::Int(t.span)),
        t.kind == TokenKind::KeywordLong ==> keyword_type_spec(t) == Some(TypeSpec::Long(t.span)),
        t.kind == TokenKind::KeywordSigned ==> keyword_type_spec(t) == Some(TypeSpec::Signed(t.span)),
        t.kind == TokenKind::KeywordUnsigned ==> keyword_type_spec(t) == Some(TypeSpec::Unsigned(t.span)),
        t.kind == TokenKind::KeywordFloat ==> keyword_type_spec(t) == Some(TypeSpec::Float(t.span)),
        t.kind == TokenKind::KeywordDouble ==> keyword_type_spec(t) == Some(TypeSpec::Double(t.span)),
        !(t.kind == TokenKind::KeywordVoid
            || t.kind == TokenKind::KeywordChar
            || t.kind == TokenKind::KeywordShort
            || t.kind == TokenKind::KeywordInt
            || t.kind == TokenKind::KeywordLong
            || t.kind == TokenKind::KeywordSigned
            || t.kind == TokenKind::KeywordUnsigned
            || t.kind == TokenKind::KeywordFloat
            || t.kind == TokenKind::KeywordDouble
        ) ==> keyword_type_spec(t) is None,
{
}

impl TypeSpec {
    /// The specifier a keyword or a type name stands for.
    pub fn make(token: Token) -> (r: TypeSpec)
        requires
            keyword_type_spec(token) is Some || (token.kind == TokenKind::TypeName && token.value is String),
        ensures
            keyword_type_spec(token) matches Some(k) ==> r == k,
            token.kind == TokenKind::TypeName ==> (r matches TypeSpec::TypeName(n, sp) && n@ == text_of(token)
                && sp == token.span),
    {
        let span = token.span;
        match token.kind {
            TokenKind::KeywordVoid => TypeSpec::Void(span),
            TokenKind::KeywordChar => TypeSpec::Char(span),
            TokenKind::KeywordShort => TypeSpec::Short(span),
            TokenKind::KeywordInt => TypeSpec::Int(span),
            TokenKind::KeywordLong => TypeSpec::Long(span),
            TokenKind::KeywordSigned => TypeSpec::Signed(span),
            TokenKind::KeywordUnsigned => TypeSpec::Unsigned(span),
            TokenKind::KeywordFloat => TypeSpec::Float(span),
            TokenKind::KeywordDouble => TypeSpec::Double(span),
            _ => TypeSpec::TypeName(into_text(token), span),
        }
    }

    /// A struct or union specifier.
    pub fn make_struct_or_union(struct_or_union_spec: Box<StructOrUnionSpec>) -> (r: TypeSpec)
        ensures
            r == TypeSpec::StructOrUnion(struct_or_union_spec),
    {
        TypeSpec::StructOrUnion(struct_or_union_spec)
    }

    /// An enum specifier.
    pub fn make_enum(enum_spec: Box<EnumSpec>) -> (r: TypeSpec)
        ensures
            r == TypeSpec::Enum(enum_spec),
    {
        TypeSpec::Enum(enum_spec)
    }

    /// The span of the specifier.
    pub fn unwrap_span(&self) -> (r: Span)
        ensures
            r == type_spec_span(*self),
    {
        match self {
            TypeSpec::Void(x)
            | TypeSpec::Char(x)
            | TypeSpec::Short(x)
            | TypeSpec::Int(x)
            | TypeSpec::Long(x)
            | TypeSpec::Signed(x)
            | TypeSpec::Unsigned(x)
            | TypeSpec::Float(x)
            | TypeSpec::Double(x)
            | TypeSpec::TypeName(_, x) => *x,
            TypeSpec::StructOrUnion(x) => x.span,
            TypeSpec::Enum(x) => x.span,
        }
    }
}

/// The qualifier a `const` or `volatile` token stands for.
pub open spec fn qual_of(t: Token) -> Option<TypeQual> {
    match t.kind {
        TokenKind::KeywordConst => Some(TypeQual::Const(t.span)),
        TokenKind::KeywordVolatile => Some(TypeQual::Volatile(t.span)),
        _ => None,
    }
}

/// Each qualifier keyword stands for the qualifier of the same name, carrying the token's span, and
/// every other token kind for none.
pub proof fn lemma_qual_of_table(t: Token)
    ensures
        t.kind == TokenKind::KeywordConst ==> qual_of(t) == Some(TypeQual::Const(t.span)),
        t.kind == TokenKind::KeywordVolatile ==> qual_of(t) == Some(TypeQual::Volatile(t.span)),
        !(t.kind == TokenKind::KeywordConst || t.kind == TokenKind::KeywordVolatile) ==> qual_of(t) is None,
{
}

/// The storage class a storage-class keyword stands for.
pub open spec fn storage_of(t: Token) -> Option<StorageClass> {
    match t.kind {
        TokenKind::KeywordTypedef => Some(StorageClass::Typedef(t.span)),
        TokenKind::KeywordExtern => Some(StorageClass::Extern(t.span)),
        TokenKind::KeywordStatic => Some(StorageClass::Static(t.span)),
        TokenKind::KeywordAuto => Some(StorageClass::Auto(t.span)),
        TokenKind::KeywordRegister => Some(StorageClass::Register(t.span)),
        _ => None,
    }
}

/// Each storage-class keyword stands for the storage class of the same name, carrying the token's span, and
/// every other token kind for none.
pub proof fn lemma_storage_of_table(t: Token)
    ensures
        t.kind == TokenKind::KeywordTypedef ==> storage_of(t) == Some(StorageClass::Typedef(t.span)),
        t.kind == TokenKind::KeywordExtern ==> storage_of(t) == Some(StorageClass::Extern(t.span)),
        t.kind == TokenKind::KeywordStatic ==> storage_of(t) == Some(StorageClass::Static(t.span)),
        t.kind == TokenKind::KeywordAuto ==> storage_of(t) == Some(StorageClass::Auto(t.span)),
        t.kind == TokenKind::KeywordRegister ==> storage_of(t) == Some(StorageClass::Register(t.span)),
        !(t.kind == TokenKind::KeywordTypedef
            || t.kind == TokenKind::KeywordExtern
            || t.kind == TokenKind::KeywordStatic
            || t.kind == TokenKind::KeywordAuto
            || t.kind == TokenKind::KeywordRegister
        ) ==> storage_of(t) is None,
{
}

/// The qualifier a keyword token stands for; the token must be one.
fn token_qual(token: &Token) -> (r: TypeQual)
    requires
        qual_of(*token) is Some,
    ensures
        qual_of(*token) == Some(r),
{
    match token.kind {
        TokenKind::KeywordConst => TypeQual::Const(token.span),
        _ => TypeQual::Volatile(token.span),
    }
}

impl TypeQual {
    /// Appends the qualifier of `token` to the list, which may be absent.
    pub fn make(list: Option<Vec<TypeQual>>, token: Token) -> (r: Vec<TypeQual>)
        requires
            qual_of(token) is Some,
        ensures
            r@ == opt_items(list).push(qual_of(token)->0),
    {
        let mut list = match list {
            Some(l) => l,
            None => Vec::new(),
        };
        list.push(token_qual(&token));
        list
    }
}

/// The declaration specifiers: storage classes, qualifiers and type
/// specifiers in the order written, and the span they cover.
#[derive(Debug)]
pub struct DeclSpec {
    pub storage_class: Vec<StorageClass>,
    pub type_quals: Vec<TypeQual>,
    pub type_specs: Vec<TypeSpec>,
    pub span: Span,
}

/// The span a specifier list grows from: its own, or `span` when it is
/// the first specifier.
pub open spec fn prior_span(decl_spec: Option<DeclSpec>, span: Span) -> Span {
    match decl_spec {
        Some(d) => d.span,
        None => span,
    }
}

/// The storage classes of an optional specifier list.
pub open spec fn prior_storage(decl_spec: Option<DeclSpec>) -> Seq<StorageClass> {
    match decl_spec {
        Some(d) => d.storage_class@,
        None => Seq::empty(),
    }
}

/// The qualifiers of an optional specifier list.
pub open spec fn prior_quals(decl_spec: Option<DeclSpec>) -> Seq<TypeQual> {
    match decl_spec {
        Some(d) => d.type_quals@,
        None => Seq::empty(),
    }
}

/// The type specifiers of an optional specifier list.
pub open spec fn prior_specs(decl_spec: Option<DeclSpec>) -> Seq<TypeSpec> {
    match decl_spec {
        Some(d) => d.type_specs@,
        None => Seq::empty(),
    }
}

impl DeclSpec {
    /// An empty specifier list at `span`.
    pub fn new(span: Span) -> (r: Self)
        ensures
            r.storage_class@ == Seq::<StorageClass>::empty(),
            r.type_quals@ == Seq::<TypeQual>::empty(),
            r.type_specs@ == Seq::<TypeSpec>::empty(),
            r.span == span,
    {
        Self { storage_class: Vec::new(), type_quals: Vec::new(), type_specs: Vec::new(), span }
    }

    /// Adds the storage class of `spec` to the list, which may be absent.
    pub fn push_storage(spec: Token, decl_spec: Option<DeclSpec>) -> (r: DeclSpec)
        requires
            storage_of(spec) is Some,
        ensures
            r.storage_class@ == prior_storage(decl_spec).push(storage_of(spec)->0),
            r.type_quals@ == prior_quals(decl_spec),
            r.type_specs@ == prior_specs(decl_spec),
            r.span == spec_merge(prior_span(decl_spec, spec.span), spec.span),
    {
        let span = spec.span;
        let mut decl_spec = match decl_spec {
            Some(d) => d,
            None => Self::new(span),
        };
        let class = match spec.kind {
            TokenKind::KeywordTypedef => StorageClass::Typedef(span),
            TokenKind::KeywordExtern => StorageClass::Extern(span),
            TokenKind::KeywordStatic => StorageClass::Static(span),
            TokenKind::KeywordAuto => StorageClass::Auto(span),
            _ => StorageClass::Register(span),
        };
        decl_spec.span.merge_self(&span);
        decl_spec.storage_class.push(class);
        decl_spec
    }

    /// Adds the qualifier of `qual` to the list, which may be absent.
    pub fn push_qual(qual: Token, decl_spec: Option<DeclSpec>) -> (r: DeclSpec)
        requires
            qual_of(qual) is Some,
        ensures
            r.storage_class@ == prior_storage(decl_spec),
            r.type_quals@ == prior_quals(decl_spec).push(qual_of(qual)->0),
            r.type_specs@ == prior_specs(decl_spec),
            r.span == spec_merge(prior_span(decl_spec, qual.span), qual.span),
    {
        let span = qual.span;
        let mut decl_spec = match decl_spec {
            Some(d) => d,
            None => Self::new(span),
        };
        let q = token_qual(&qual);
        decl_spec.span.merge_self(&span);
        decl_spec.type_quals.push(q);
        decl_spec
    }

    /// Adds a type specifier to the list, which may be absent.
    pub fn push_spec(spec: TypeSpec, decl_spec: Option<DeclSpec>) -> (r: DeclSpec)
        ensures
            r.storage_class@ == prior_storage(decl_spec),
            r.type_quals@ == prior_quals(decl_spec),
            r.type_specs@ == prior_specs(decl_spec).push(spec),
            r.span == spec_merge(prior_span(decl_spec, type_spec_span(spec)), type_spec_span(spec)),
    {
        let span = spec.unwrap_span();
        let mut decl_spec = match decl_spec {
            Some(d) => d,
            None => Self::new(span),
        };
        decl_spec.span.merge_self(&span);
        decl_spec.type_specs.push(spec);
        decl_spec
    }

    /// The span of the specifiers.
    pub fn unwrap_span(&self) -> (r: Span)
        ensures
            r == self.span,
    {
        self.span
    }
}

/// A declarator: its pointers, outermost first, then the rest of it in the
/// order the grammar met it (name, brackets, parameter lists, nested
/// declarators), and the span it covers.
#[derive(Debug)]
pub struct Declarator {
    pub pointer_chunks: Vec<PointerChunk>,
    pub decl_chunks: Vec<DeclChunk>,
    pub span: Span,
}

impl Declarator {
    /// A declarator from its pointers, collected innermost first, and its
    /// other parts, of which there must be one at least; the pointers are
    /// turned around, and the span runs from the first pointer (or the
    /// first part) to the last part.
    pub fn make(pointer_chunks: Option<Vec<PointerChunk>>, decl_chunks: Vec<DeclChunk>) -> (r: Declarator)
        requires
            decl_chunks.len() > 0,
        ensures
            r.pointer_chunks@.len() == opt_items(pointer_chunks).len(),
            forall|i: int|
                0 <= i < r.pointer_chunks@.len() ==> #[trigger] r.pointer_chunks@[i] == opt_items(pointer_chunks)[r.pointer_chunks@.len() - 1 - i],
            r.decl_chunks@ == decl_chunks@,
            r.span == spec_merge(
                if opt_items(pointer_chunks).len() > 0 {
                    opt_items(pointer_chunks).last().span
                } else {
                    decl_chunks@[0].span
                },
                decl_chunks@.last().span,
            ),
    {
        let mut given = match pointer_chunks {
            Some(p) => p,
            None => Vec::new(),
        };
        let ghost orig = given@;
        let n = given.len();
        let mut pointers: Vec<PointerChunk> = Vec::new();
        while given.len() > 0
            invariant
                given@.len() + pointers@.len() == n,
                n == orig.len(),
                given@ == orig.subrange(0, given@.len() as int),
                forall|i: int| 0 <= i < pointers@.len() ==> #[trigger] pointers@[i] == orig[n - 1 - i],
            decreases given.len(),
        {
            let p = given.pop().unwrap();
            pointers.push(p);
        }
        let first = if pointers.len() > 0 {
            pointers[0].span
        } else {
            decl_chunks[0].span
        };
        let last = decl_chunks[decl_chunks.len() - 1].span;
        let span = first.merge(&last);
        Declarator { pointer_chunks: pointers, decl_chunks, span }
    }
}

/// A complete declaration: specifiers, declarator and initializer, with
/// the span of the specifiers and declarator.
#[derive(Debug)]
pub struct CompleteDecl {
    pub spec: Box<DeclSpec>,
    pub declarator: Declarator,
    pub init: Option<Initializer>,
    pub span: Span,
}

impl CompleteDecl {
    /// A complete declaration from its parts.
    pub fn make(spec: Box<DeclSpec>, declarator: Declarator, init: Option<Initializer>) -> (r: Box<CompleteDecl>)
        ensures
            r.spec == spec,
            r.declarator == declarator,
            r.init == init,
            r.span == spec_merge(spec.span, declarator.span),
    {
        let span = spec.span.merge(&declarator.span);
        Box::new(CompleteDecl { spec, declarator, init, span })
    }
}

impl PointerChunk {
    /// A list of one pointer.
    pub fn make_list(chunk: PointerChunk) -> (r: Vec<PointerChunk>)
        ensures
            r@ == seq![chunk],
    {
        vec![chunk]
    }

    /// The pointer of a `*` token with its qualifiers, if any.
    pub fn make_pointer(token: Token, quals: Option<Vec<TypeQual>>) -> (r: Self)
        ensures
            r.quals@ == opt_items(quals),
            r.span == token.span,
    {
        let quals = match quals {
            Some(q) => q,
            None => Vec::new(),
        };
        PointerChunk { quals, span: token.span }
    }

    /// Adds a pointer in front of the list; the list keeps the pointers
    /// innermost first, so the new one goes to its end.
    pub fn push_front(chunk: PointerChunk, list: Vec<PointerChunk>) -> (r: Vec<PointerChunk>)
        ensures
            r@ == list@.push(chunk),
    {
        let mut list = list;
        list.push(chunk);
        list
    }
}

/// A part of a declarator other than a pointer.
#[derive(Debug)]
pub struct DeclChunk {
    pub chunk: DeclChunkKind,
    pub span: Span,
}

/// The kinds of declarator part: an array, a parameter list, the name, or
/// a declarator in parentheses.
#[derive(Debug)]
pub enum DeclChunkKind {
    Array { size: Option<Box<Expression>>, size_modifier: ArraySizeModifier },
    Function { param_list: Delim<Option<Box<ParamList>>> },
    Ident { name: String },
    Paren(Delim<Declarator>),
}

impl DeclChunk {
    /// A part of the given kind and span.
    pub fn new(chunk: DeclChunkKind, span: Span) -> (r: Self)
        ensures
            r.chunk == chunk,
            r.span == span,
    {
        DeclChunk { chunk, span }
    }

    /// `[size]`: sized by a literal, or left open (`[]`); a size that is
    /// not a literal is refused, as variable-length arrays are not
    /// supported.
    pub fn make_array(lbracket: Token, size: Option<Box<Expression>>, rbracket: Token) -> (r: Self)
        requires
            size matches Some(x) ==> x.kind is Literal,
        ensures
            r.span == tokens_span(lbracket, rbracket),
            r.chunk == (DeclChunkKind::Array {
                size,
                size_modifier: if size is Some {
                    ArraySizeModifier::Normal
                } else {
                    ArraySizeModifier::Static
                },
            }),
    {
        let span = Span { start: lbracket.span.start, end: rbracket.span.end };
        let size_modifier = match &size {
            Some(_) => ArraySizeModifier::Normal,
            None => ArraySizeModifier::Static,
        };
        Self::new(DeclChunkKind::Array { size, size_modifier }, span)
    }

    /// `(parameters)` of a prototype, the list possibly empty.
    pub fn make_function(lparen: Token, param_list: Option<ParamList>, rparen: Token) -> (r: Self)
        ensures
            r.span == spec_merge(lparen.span, rparen.span),
            r.chunk matches DeclChunkKind::Function { param_list: d } && d.l == lparen.span && d.r == rparen.span
                && d.inner == (match param_list {
                Some(p) => Some(Box::new(p)),
                None => None,
            }),
    {
        let span = lparen.span.merge(&rparen.span);
        let inner = match param_list {
            Some(p) => Some(Box::new(p)),
            None => None,
        };
        let kind = DeclChunkKind::Function { param_list: Delim { l: lparen.span, inner, r: rparen.span } };
        Self::new(kind, span)
    }

    /// `(a, b, c)` of an old-style definition: a parameter list of the
    /// names, without prototype, and not variadic.
    pub fn make_old_function(lparen: Token, ident_list: Option<SepList<Token>>, rparen: Token) -> (r: Self)
        requires
            ident_list matches Some(l) ==> forall|i: int| 0 <= i < l.list.len() ==> (#[trigger] l.list@[i]).value is String,
        ensures
            r.span == spec_merge(lparen.span, rparen.span),
            r.chunk matches DeclChunkKind::Function { param_list: d } && d.l == lparen.span && d.r == rparen.span
                && old_style_list(d.inner, ident_list, r.span),
    {
        let span = lparen.span.merge(&rparen.span);
        let ident_list = match ident_list {
            Some(l) => l,
            None => SepList { list: Vec::new(), sep: Vec::new() },
        };
        let ghost ids = ident_list.list@;
        let mut idents = ident_list.list;
        let mut params: Vec<ParamInfo> = Vec::new();
        while idents.len() > 0
            invariant
                params@.len() + idents@.len() == ids.len(),
                idents@ == ids.subrange(params@.len() as int, ids.len() as int),
                forall|k: int| 0 <= k < ids.len() ==> (#[trigger] ids[k]).value is String,
                params_name(params@, ids.subrange(0, params@.len() as int)),
            decreases idents.len(),
        {
            let ghost k = params@.len() as int;
            let x = idents.remove(0);
            assert(x == ids[k]);
            let xs = x.span;
            let name = into_text(x);
            params.push(ParamInfo::Ident(name, xs));
            proof {
                assert(ids.subrange(0, k + 1) =~= ids.subrange(0, k).push(ids[k]));
                assert(idents@ =~= ids.subrange(k + 1, ids.len() as int));
            }
        }
        assert(ids.subrange(0, ids.len() as int) =~= ids);
        let param_list = ParamList {
            is_variadic: false,
            has_prototype: false,
            params: SepList { list: params, sep: ident_list.sep },
            span,
        };
        let kind = DeclChunkKind::Function {
            param_list: Delim { l: lparen.span, inner: Some(Box::new(param_list)), r: rparen.span },
        };
        Self::new(kind, span)
    }

    /// `(declarator)`.
    pub fn make_paren(lparen: Token, declarator: Declarator, rparen: Token) -> (r: Self)
        ensures
            r.span == spec_merge(lparen.span, rparen.span),
            r.chunk == DeclChunkKind::Paren(Delim { l: lparen.span, inner: declarator, r: rparen.span }),
    {
        let span = lparen.span.merge(&rparen.span);
        Self::new(DeclChunkKind::Paren(Delim { l: lparen.span, inner: declarator, r: rparen.span }), span)
    }

    /// The declared name.
    pub fn make_ident(ident: Token) -> (r: Self)
        requires
            ident.value is String,
        ensures
            r.span == ident.span,
            r.chunk matches DeclChunkKind::Ident { name } && name@ == text_of(ident),
    {
        let span = ident.span;
        Self::new(DeclChunkKind::Ident { name: into_text(ident) }, span)
    }

    /// A list of one part.
    pub fn make_list(chunk: DeclChunk) -> (r: Vec<DeclChunk>)
        ensures
            r@ == seq![chunk],
    {
        vec![chunk]
    }

    /// Appends a part.
    pub fn push(list: Vec<DeclChunk>, chunk: DeclChunk) -> (r: Vec<DeclChunk>)
        ensures
            r@ == list@.push(chunk),
    {
        let mut list = list;
        list.push(chunk);
        list
    }
}

/// `list` is the parameter list of an old-style definition whose names are
/// `ident_list`: not variadic, without prototype, spanning `span`.
pub open spec fn old_style_list(list: Option<Box<ParamList>>, ident_list: Option<SepList<Token>>, span: Span) -> bool {
    match list {
        Some(p) => {
            &&& !p.is_variadic
            &&& !p.has_prototype
            &&& p.span == span
            &&& match ident_list {
                Some(l) => p.params.sep@ == l.sep@ && params_name(p.params.list@, l.list@),
                None => p.params.sep@.len() == 0 && p.params.list@.len() == 0,
            }
        },
        None => false,
    }
}

/// `params` are the names of the tokens `ids`, each with the token's span.
pub open spec fn params_name(params: Seq<ParamInfo>, ids: Seq<Token>) -> bool {
    &&& params.len() == ids.len()
    &&& forall|i: int|
        0 <= i < ids.len() ==> (#[trigger] params[i] matches ParamInfo::Ident(n, s) && n@ == text_of(ids[i]) && s
            == ids[i].span)
}

/// A parameter list: whether it ends in `...`, whether it gives types,
/// the parameters with their commas, and its span.
#[derive(Debug)]
pub struct ParamList {
    pub is_variadic: bool,
    pub has_prototype: bool,
    pub params: SepList<ParamInfo>,
    pub span: Span,
}

/// The span of a parameter.
pub open spec fn param_info_span(p: ParamInfo) -> Span {
    match p {
        ParamInfo::Ident(_, x) => x,
        ParamInfo::Decl(_, x) => x,
    }
}

impl ParamList {
    /// Marks the list as ending in `, ...`, keeping the comma.
    pub fn set_variadic(param_list: ParamList, comma: Token) -> (r: ParamList)
        ensures
            r.is_variadic,
            r.has_prototype == param_list.has_prototype,
            r.params.list@ == param_list.params.list@,
            r.params.sep@ == param_list.params.sep@.push(comma.span),
            r.span == param_list.span,
    {
        let mut param_list = param_list;
        param_list.is_variadic = true;
        param_list.params.push_sep(comma.span);
        param_list
    }

    /// A prototype list of one parameter.
    pub fn make_list(param_info: ParamInfo) -> (r: ParamList)
        ensures
            !r.is_variadic,
            r.has_prototype,
            r.params.list@ == seq![param_info],
            r.params.sep@.len() == 0,
            r.span == param_info_span(param_info),
    {
        let span = param_info.unwrap_span();
        ParamList { is_variadic: false, has_prototype: true, params: SepList::new(param_info), span }
    }

    /// Appends a parameter after a comma; the span grows to cover it.
    pub fn append_list(param_list: ParamList, comma: Token, param_info: ParamInfo) -> (r: ParamList)
        ensures
            r.is_variadic == param_list.is_variadic,
            r.has_prototype == param_list.has_prototype,
            r.params.list@ == param_list.params.list@.push(param_info),
            r.params.sep@ == param_list.params.sep@.push(comma.span),
            r.span == spec_merge(param_list.span, param_info_span(param_info)),
    {
        let mut param_list = param_list;
        let span = param_info.unwrap_span();
        param_list.span.merge_self(&span);
        param_list.params.push_item(param_info);
        param_list.params.push_sep(comma.span);
        param_list
    }
}

/// A parameter: a bare name (old style) or a declaration.
#[derive(Debug)]
pub enum ParamInfo {
    Ident(String, Span),
    Decl(Box<CompleteDecl>, Span),
}

impl ParamInfo {
    /// The span of the parameter.
    pub fn unwrap_span(&self) -> (r: Span)
        ensures
            r == param_info_span(*self),
    {
        match self {
            ParamInfo::Ident(_, x) | ParamInfo::Decl(_, x) => *x,
        }
    }
}

} // verus!
