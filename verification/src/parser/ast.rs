use crate::parser::span::{spec_merge, Span};
use crate::types::lex::token::TokenKind;
use crate::types::symbol_table::Symbol;
use crate::types::token::{Token, TokenValue};
use std::rc::Rc;
use vstd::prelude::*;

pub mod temp_nodes;
pub mod visitor;

verus! {

/// The C types, each with the span of the text that named it.
#[derive(Debug)]
pub enum Type {
    Void(Span),
    Integer { signed: bool, size: IntegerSize, span: Span },
    Floating { size: FloatSize, span: Span },
    Pointer(Box<Type>, Span),
    Array { elem_ty: Box<Type>, size: Option<u64>, span: Span },
    Function { ret_ty: Box<Type>, params: Vec<Type>, is_variadic: bool, span: Span },
    Struct { name: Option<String>, fields: Vec<Field>, span: Span },
    Union { name: Option<String>, fields: Vec<Field>, span: Span },
    Enum { name: Option<String>, values: Vec<(String, i64)>, span: Span },
    NamedType { name: String, decl_ref: Option<Rc<Symbol>>, span: Span },
}

/// Sizes of the integer types.
#[derive(Debug, Clone, Copy, PartialEq, Eq, Structural)]
pub enum IntegerSize {
    Char,
    Short,
    Int,
    Long,
}

/// Sizes of the floating types; `Float` is the smaller.
#[derive(Debug, Clone, Copy, PartialEq, Eq, Structural)]
pub enum FloatSize {
    Float,
    Double,
}

/// Storage classes.
#[derive(Debug, Clone, Copy, PartialEq, Eq, Structural)]
pub enum StorageClass {
    Typedef(Span),
    Extern(Span),
    Static(Span),
    Auto(Span),
    Register(Span),
}

/// Type qualifiers.
#[derive(Debug, Clone, Copy, PartialEq, Eq, Structural, Default)]
pub struct Qualifiers {
    pub is_const: bool,
    pub is_volatile: bool,
}

/// A member of a struct or union.
#[derive(Debug)]
pub struct Field {
    pub name: String,
    pub ty: Type,
    pub bit_width: Option<u32>,
    pub span: Span,
}

/// A function parameter.
#[derive(Debug)]
pub struct Parameter {
    pub name: Option<String>,
    pub ty: Type,
    pub span: Span,
}

/// Unary operators, with the span of the operator.
#[derive(Debug, Clone, Copy, PartialEq, Eq, Structural)]
pub enum UnaryOp {
    AddressOf(Span),
    Deref(Span),
    Plus(Span),
    Minus(Span),
    BitNot(Span),
    LogicalNot(Span),
}

/// Binary operators, with the span of the operator.
#[derive(Debug, Clone, Copy, PartialEq, Eq, Structural)]
pub enum BinaryOp {
    Add(Span),
    Sub(Span),
    Mul(Span),
    Div(Span),
    Mod(Span),
    Shl(Span),
    Shr(Span),
    Lt(Span),
    Gt(Span),
    Le(Span),
    Ge(Span),
    Eq(Span),
    Ne(Span),
    BitAnd(Span),
    BitXor(Span),
    BitOr(Span),
    LogicalAnd(Span),
    LogicalOr(Span),
}

/// Assignment operators, with the span of the operator.
#[derive(Debug, Clone, Copy, PartialEq, Eq, Structural)]
pub enum AssignOp {
    Assign(Span),
    MulAssign(Span),
    DivAssign(Span),
    ModAssign(Span),
    AddAssign(Span),
    SubAssign(Span),
    ShlAssign(Span),
    ShrAssign(Span),
    AndAssign(Span),
    XorAssign(Span),
    OrAssign(Span),
}

/// The mathematical value of a type: lists become sequences and names
/// become sequences of characters. Of a named type's declaration only
/// whether there is one is kept: a `Symbol` holds no data, so two
/// declarations cannot differ in anything else.
pub enum TypeV {
    Void(Span),
    Integer { signed: bool, size: IntegerSize, span: Span },
    Floating { size: FloatSize, span: Span },
    Pointer(Box<TypeV>, Span),
    Array { elem_ty: Box<TypeV>, size: Option<u64>, span: Span },
    Function { ret_ty: Box<TypeV>, params: Seq<TypeV>, is_variadic: bool, span: Span },
    Struct { name: Option<Seq<char>>, fields: Seq<FieldV>, span: Span },
    Union { name: Option<Seq<char>>, fields: Seq<FieldV>, span: Span },
    Enum { name: Option<Seq<char>>, values: Seq<(Seq<char>, i64)>, span: Span },
    NamedType { name: Seq<char>, has_decl: bool, span: Span },
}

/// The mathematical value of a struct or union member.
pub struct FieldV {
    pub name: Seq<char>,
    pub ty: TypeV,
    pub bit_width: Option<u32>,
    pub span: Span,
}

/// The value of an optional name.
pub open spec fn name_view(n: Option<String>) -> Option<Seq<char>> {
    match n {
        None => None,
        Some(s) => Some(s@),
    }
}

/// The value of the constants of an enum.
pub open spec fn values_view(v: Vec<(String, i64)>) -> Seq<(Seq<char>, i64)> {
    Seq::new(v@.len(), |i: int| (v@[i].0@, v@[i].1))
}

/// The value of a type.
pub open spec fn type_view(t: Type) -> TypeV
    decreases t,
{
    match t {
        Type::Void(s) => TypeV::Void(s),
        Type::Integer { signed, size, span } => TypeV::Integer { signed, size, span },
        Type::Floating { size, span } => TypeV::Floating { size, span },
        Type::Pointer(b, s) => TypeV::Pointer(Box::new(type_view(*b)), s),
        Type::Array { elem_ty, size, span } => TypeV::Array { elem_ty: Box::new(type_view(*elem_ty)), size, span },
        Type::Function { ret_ty, params, is_variadic, span } => TypeV::Function {
            ret_ty: Box::new(type_view(*ret_ty)),
            params: Seq::new(params@.len(), |i: int| if 0 <= i < params@.len() { type_view(params@[i]) } else { TypeV::Void(Span { start: 0, end: 0 }) }),
            is_variadic,
            span,
        },
        Type::Struct { name, fields, span } => TypeV::Struct {
            name: name_view(name),
            fields: Seq::new(fields@.len(), |i: int| if 0 <= i < fields@.len() {
                FieldV { name: fields@[i].name@, ty: type_view(fields@[i].ty), bit_width: fields@[i].bit_width, span: fields@[i].span }
            } else {
                FieldV { name: Seq::empty(), ty: TypeV::Void(Span { start: 0, end: 0 }), bit_width: None, span: Span { start: 0, end: 0 } }
            }),
            span,
        },
        Type::Union { name, fields, span } => TypeV::Union {
            name: name_view(name),
            fields: Seq::new(fields@.len(), |i: int| if 0 <= i < fields@.len() {
                FieldV { name: fields@[i].name@, ty: type_view(fields@[i].ty), bit_width: fields@[i].bit_width, span: fields@[i].span }
            } else {
                FieldV { name: Seq::empty(), ty: TypeV::Void(Span { start: 0, end: 0 }), bit_width: None, span: Span { start: 0, end: 0 } }
            }),
            span,
        },
        Type::Enum { name, values, span } => TypeV::Enum { name: name_view(name), values: values_view(values), span },
        Type::NamedType { name, decl_ref, span } => TypeV::NamedType { name: name@, has_decl: decl_ref is Some, span },
    }
}

impl View for Type {
    type V = TypeV;

    open spec fn view(&self) -> TypeV {
        type_view(*self)
    }
}

/// The span a type was named by.
pub open spec fn type_span(t: TypeV) -> Span {
    match t {
        TypeV::Void(s) => s,
        TypeV::Integer { span, .. } => span,
        TypeV::Floating { span, .. } => span,
        TypeV::Pointer(_, s) => s,
        TypeV::Array { span, .. } => span,
        TypeV::Function { span, .. } => span,
        TypeV::Struct { span, .. } => span,
        TypeV::Union { span, .. } => span,
        TypeV::Enum { span, .. } => span,
        TypeV::NamedType { span, .. } => span,
    }
}

/// The same type, named by span `s`.
pub open spec fn with_span(t: TypeV, s: Span) -> TypeV {
    match t {
        TypeV::Void(_) => TypeV::Void(s),
        TypeV::Integer { signed, size, .. } => TypeV::Integer { signed, size, span: s },
        TypeV::Floating { size, .. } => TypeV::Floating { size, span: s },
        TypeV::Pointer(b, _) => TypeV::Pointer(b, s),
        TypeV::Array { elem_ty, size, .. } => TypeV::Array { elem_ty, size, span: s },
        TypeV::Function { ret_ty, params, is_variadic, .. } => TypeV::Function { ret_ty, params, is_variadic, span: s },
        TypeV::Struct { name, fields, .. } => TypeV::Struct { name, fields, span: s },
        TypeV::Union { name, fields, .. } => TypeV::Union { name, fields, span: s },
        TypeV::Enum { name, values, .. } => TypeV::Enum { name, values, span: s },
        TypeV::NamedType { name, has_decl, .. } => TypeV::NamedType { name, has_decl, span: s },
    }
}

/// The rank of a type in the usual conversions: integers 1 to 4 by size,
/// floating types 6 and 7, pointers 9, anything else 0.
pub open spec fn spec_rank(t: TypeV) -> u8 {
    match t {
        TypeV::Integer { size, .. } => match size {
            IntegerSize::Char => 1,
            IntegerSize::Short => 2,
            IntegerSize::Int => 3,
            IntegerSize::Long => 4,
        },
        TypeV::Floating { size, .. } => match size {
            FloatSize::Float => 6,
            FloatSize::Double => 7,
        },
        TypeV::Pointer(_, _) => 9,
        _ => 0,
    }
}

/// Integer or floating.
pub open spec fn spec_is_arithmetic(t: TypeV) -> bool {
    t is Integer || t is Floating
}

/// An array of `len` unsigned chars, the type of a string literal.
pub open spec fn spec_string_type(len: u64, span: Span) -> TypeV {
    TypeV::Array {
        elem_ty: Box::new(TypeV::Integer { signed: false, size: IntegerSize::Char, span }),
        size: Some(len),
        span,
    }
}

impl Type {
    /// The array type of a string literal of `len` characters.
    pub fn string_type(len: u64, span: Span) -> (r: Type)
        ensures
            r@ == spec_string_type(len, span),
    {
        proof {
            reveal_with_fuel(type_view, 2);
        }
        Type::Array {
            elem_ty: Box::new(Type::Integer { signed: false, size: IntegerSize::Char, span }),
            size: Some(len),
            span,
        }
    }

    /// The rank of the type; the higher, the more precise.
    pub fn rank(&self) -> (r: u8)
        ensures
            r == spec_rank(self@),
    {
        match self {
            Type::Integer { size, .. } => match size {
                IntegerSize::Char => 1,
                IntegerSize::Short => 2,
                IntegerSize::Int => 3,
                IntegerSize::Long => 4,
            },
            Type::Floating { size, .. } => match size {
                FloatSize::Float => 6,
                FloatSize::Double => 7,
            },
            Type::Pointer(_, _) => 9,
            _ => 0,
        }
    }

    /// Whether the type is an integer type.
    pub fn is_integer(&self) -> (r: bool)
        ensures
            r == (self@ is Integer),
    {
        match self {
            Type::Integer { .. } => true,
            _ => false,
        }
    }

    /// Whether the type is a floating type.
    pub fn is_floating(&self) -> (r: bool)
        ensures
            r == (self@ is Floating),
    {
        match self {
            Type::Floating { .. } => true,
            _ => false,
        }
    }

    /// Whether the type is a pointer type.
    pub fn is_pointer(&self) -> (r: bool)
        ensures
            r == (self@ is Pointer),
    {
        match self {
            Type::Pointer(_, _) => true,
            _ => false,
        }
    }

    /// Whether the type is an array type.
    pub fn is_array(&self) -> (r: bool)
        ensures
            r == (self@ is Array),
    {
        match self {
            Type::Array { .. } => true,
            _ => false,
        }
    }

    /// Whether the type is a function type.
    pub fn is_function(&self) -> (r: bool)
        ensures
            r == (self@ is Function),
    {
        match self {
            Type::Function { .. } => true,
            _ => false,
        }
    }

    /// Whether the type is an integer or a floating type.
    pub fn is_arithmetic(&self) -> (r: bool)
        ensures
            r == spec_is_arithmetic(self@),
    {
        self.is_integer() || self.is_floating()
    }

    /// Whether the type is a name that a typedef introduced.
    pub fn is_named_type(&self) -> (r: bool)
        ensures
            r == (self@ is NamedType),
    {
        match self {
            Type::NamedType { .. } => true,
            _ => false,
        }
    }

    /// The span the type was named by.
    pub fn unwarp_span(&self) -> (r: Span)
        ensures
            r == type_span(self@),
    {
        match self {
            Type::Void(x) => *x,
            Type::Integer { span, .. } => *span,
            Type::Floating { span, .. } => *span,
            Type::Pointer(_, x) => *x,
            Type::Array { span, .. } => *span,
            Type::Function { span, .. } => *span,
            Type::Struct { span, .. } => *span,
            Type::Union { span, .. } => *span,
            Type::Enum { span, .. } => *span,
            Type::NamedType { span, .. } => *span,
        }
    }

    /// Replaces the span the type was named by.
    pub fn set_span(&mut self, set: Span)
        ensures
            final(self)@ == with_span(old(self)@, set),
    {
        match self {
            Type::Void(span) => { *span = set; },
            Type::Integer { span, .. } => { *span = set; },
            Type::Floating { span, .. } => { *span = set; },
            Type::Pointer(_, span) => { *span = set; },
            Type::Array { span, .. } => { *span = set; },
            Type::Function { span, .. } => { *span = set; },
            Type::Struct { span, .. } => { *span = set; },
            Type::Union { span, .. } => { *span = set; },
            Type::Enum { span, .. } => { *span = set; },
            Type::NamedType { span, .. } => { *span = set; },
        }
    }

    /// A copy of the type.
    pub fn duplicate(&self) -> (r: Type)
        ensures
            r@ == self@,
        decreases self,
    {
        match self {
            Type::Void(s) => Type::Void(*s),
            Type::Integer { signed, size, span } => Type::Integer { signed: *signed, size: *size, span: *span },
            Type::Floating { size, span } => Type::Floating { size: *size, span: *span },
            Type::Pointer(b, s) => Type::Pointer(Box::new((**b).duplicate()), *s),
            Type::Array { elem_ty, size, span } => Type::Array {
                elem_ty: Box::new((**elem_ty).duplicate()),
                size: *size,
                span: *span,
            },
            Type::Function { ret_ty, params, is_variadic, span } => {
                let ret = Box::new((**ret_ty).duplicate());
                proof {
                    assert(decreases_to!(*self => (*self)->Function_params));
                }
                let ps = duplicate_types(params);
                let r = Type::Function { ret_ty: ret, params: ps, is_variadic: *is_variadic, span: *span };
                assert(r@->Function_params =~= self@->Function_params);
                r
            },
            Type::Struct { name, fields, span } => {
                proof {
                    assert(decreases_to!(*self => (*self)->Struct_fields));
                }
                let fs = duplicate_fields(fields);
                let r = Type::Struct { name: duplicate_name(name), fields: fs, span: *span };
                assert(r@->Struct_fields =~= self@->Struct_fields);
                r
            },
            Type::Union { name, fields, span } => {
                proof {
                    assert(decreases_to!(*self => (*self)->Union_fields));
                }
                let fs = duplicate_fields(fields);
                let r = Type::Union { name: duplicate_name(name), fields: fs, span: *span };
                assert(r@->Union_fields =~= self@->Union_fields);
                r
            },
            Type::Enum { name, values, span } => {
                let vs = duplicate_values(values);
                let r = Type::Enum { name: duplicate_name(name), values: vs, span: *span };
                assert(values_view(vs) =~= values_view(*values));
                r
            },
            Type::NamedType { name, decl_ref, span } => {
                let d = match decl_ref {
                    None => None,
                    Some(_) => Some(Rc::new(Symbol {})),
                };
                Type::NamedType { name: name.clone(), decl_ref: d, span: *span }
            },
        }
    }
}

/// An exact copy of an optional name.
fn duplicate_name(n: &Option<String>) -> (r: Option<String>)
    ensures
        r == *n,
{
    match n {
        None => None,
        Some(s) => Some(s.clone()),
    }
}

/// A copy of the constants of an enum.
fn duplicate_values(v: &Vec<(String, i64)>) -> (r: Vec<(String, i64)>)
    ensures
        r@.len() == v@.len(),
        forall|k: int| 0 <= k < v@.len() ==> (#[trigger] r@[k]).0@ == v@[k].0@ && r@[k].1 == v@[k].1,
{
    let mut out: Vec<(String, i64)> = Vec::new();
    let mut i: usize = 0;
    while i < v.len()
        invariant
            i <= v.len(),
            out@.len() == i,
            forall|k: int| 0 <= k < i ==> (#[trigger] out@[k]).0@ == v@[k].0@ && out@[k].1 == v@[k].1,
        decreases v.len() - i,
    {
        let item = (v[i].0.clone(), v[i].1);
        out.push(item);
        i = i + 1;
    }
    out
}

/// A copy of a list of types.
fn duplicate_types(v: &Vec<Type>) -> (r: Vec<Type>)
    ensures
        r@.len() == v@.len(),
        forall|k: int| 0 <= k < v@.len() ==> (#[trigger] r@[k])@ == v@[k]@,
    decreases v,
{
    let mut out: Vec<Type> = Vec::new();
    let mut i: usize = 0;
    while i < v.len()
        invariant
            i <= v.len(),
            out@.len() == i,
            forall|k: int| 0 <= k < i ==> (#[trigger] out@[k])@ == v@[k]@,
        decreases v.len() - i,
    {
        proof {
            vstd::std_specs::vec::axiom_vec_index_decreases(*v, i as int);
        }
        let t = v[i].duplicate();
        out.push(t);
        i = i + 1;
    }
    out
}

/// A copy of a list of fields.
fn duplicate_fields(v: &Vec<Field>) -> (r: Vec<Field>)
    ensures
        r@.len() == v@.len(),
        forall|k: int| 0 <= k < v@.len() ==> (#[trigger] r@[k]).ty@ == v@[k].ty@
            && r@[k].name@ == v@[k].name@ && r@[k].bit_width == v@[k].bit_width && r@[k].span == v@[k].span,
    decreases v,
{
    let mut out: Vec<Field> = Vec::new();
    let mut i: usize = 0;
    while i < v.len()
        invariant
            i <= v.len(),
            out@.len() == i,
            forall|k: int| 0 <= k < i ==> (#[trigger] out@[k]).ty@ == v@[k].ty@
                && out@[k].name@ == v@[k].name@ && out@[k].bit_width == v@[k].bit_width && out@[k].span == v@[k].span,
        decreases v.len() - i,
    {
        proof {
            vstd::std_specs::vec::axiom_vec_index_decreases(*v, i as int);
            assert(decreases_to!(v@[i as int] => v@[i as int].ty));
        }
        let f = Field {
            name: v[i].name.clone(),
            ty: v[i].ty.duplicate(),
            bit_width: v[i].bit_width,
            span: v[i].span,
        };
        out.push(f);
        i = i + 1;
    }
    out
}

impl Qualifiers {
    /// Qualifiers with the given flags.
    pub fn new(is_const: bool, is_volatile: bool) -> (r: Self)
        ensures
            r.is_const == is_const,
            r.is_volatile == is_volatile,
    {
        Self { is_const, is_volatile }
    }

    /// Adds `const`.
    pub fn set_const(&mut self)
        ensures
            final(self).is_const,
            final(self).is_volatile == old(self).is_volatile,
    {
        self.is_const = true;
    }

    /// Adds `volatile`.
    pub fn set_volatile(&mut self)
        ensures
            final(self).is_volatile,
            final(self).is_const == old(self).is_const,
    {
        self.is_volatile = true;
    }
}

impl Field {
    /// Records nothing yet: the field builder takes its parts and keeps none.
    pub fn make(name: String, ty: Type, span: Span) {
    }
}

/// The span of a unary operator.
pub open spec fn unary_span(op: UnaryOp) -> Span {
    match op {
        UnaryOp::AddressOf(x) => x,
        UnaryOp::Deref(x) => x,
        UnaryOp::Plus(x) => x,
        UnaryOp::Minus(x) => x,
        UnaryOp::BitNot(x) => x,
        UnaryOp::LogicalNot(x) => x,
    }
}

impl UnaryOp {
    /// The span of the operator.
    pub fn unwrap_span(&self) -> (r: Span)
        ensures
            r == unary_span(*self),
    {
        match self {
            UnaryOp::AddressOf(x) => *x,
            UnaryOp::Deref(x) => *x,
            UnaryOp::Plus(x) => *x,
            UnaryOp::Minus(x) => *x,
            UnaryOp::BitNot(x) => *x,
            UnaryOp::LogicalNot(x) => *x,
        }
    }

    /// Whether applying the operator gives an lvalue: true for `*` only.
    pub fn is_lvalue(&self) -> (r: bool)
        ensures
            r == (*self is Deref),
    {
        match self {
            UnaryOp::AddressOf(_) => false,
            UnaryOp::Deref(_) => true,
            UnaryOp::Plus(_) => false,
            UnaryOp::Minus(_) => false,
            UnaryOp::BitNot(_) => false,
            UnaryOp::LogicalNot(_) => false,
        }
    }
}

/// The span of a binary operator.
pub open spec fn binary_span(op: BinaryOp) -> Span {
    match op {
        BinaryOp::Add(s) => s,
        BinaryOp::Sub(s) => s,
        BinaryOp::Mul(s) => s,
        BinaryOp::Div(s) => s,
        BinaryOp::Mod(s) => s,
        BinaryOp::Shl(s) => s,
        BinaryOp::Shr(s) => s,
        BinaryOp::Lt(s) => s,
        BinaryOp::Gt(s) => s,
        BinaryOp::Le(s) => s,
        BinaryOp::Ge(s) => s,
        BinaryOp::Eq(s) => s,
        BinaryOp::Ne(s) => s,
        BinaryOp::BitAnd(s) => s,
        BinaryOp::BitXor(s) => s,
        BinaryOp::BitOr(s) => s,
        BinaryOp::LogicalAnd(s) => s,
        BinaryOp::LogicalOr(s) => s,
    }
}

impl BinaryOp {
    /// The span of the operator.
    pub fn unwrap_span(&self) -> (r: Span)
        ensures
            r == binary_span(*self),
    {
        match self {
            BinaryOp::Add(s) => *s,
            BinaryOp::Sub(s) => *s,
            BinaryOp::Mul(s) => *s,
            BinaryOp::Div(s) => *s,
            BinaryOp::Mod(s) => *s,
            BinaryOp::Shl(s) => *s,
            BinaryOp::Shr(s) => *s,
            BinaryOp::Lt(s) => *s,
            BinaryOp::Gt(s) => *s,
            BinaryOp::Le(s) => *s,
            BinaryOp::Ge(s) => *s,
            BinaryOp::Eq(s) => *s,
            BinaryOp::Ne(s) => *s,
            BinaryOp::BitAnd(s) => *s,
            BinaryOp::BitXor(s) => *s,
            BinaryOp::BitOr(s) => *s,
            BinaryOp::LogicalAnd(s) => *s,
            BinaryOp::LogicalOr(s) => *s,
        }
    }
}

/// A value on the parser's semantic stack: any node, or nothing.
#[derive(Debug)]
pub enum ASTNode {
    TranslationUnit(TranslationUnit),
    ExternalDeclaration(ExternalDeclaration),
    FunctionDefinition(FunctionDefinition),
    Declaration(Declaration),
    Type(Type),
    IntegerSize(IntegerSize),
    FloatSize(FloatSize),
    StorageClass(StorageClass),
    Qualifiers(Qualifiers),
    Field(Field),
    Parameter(Parameter),
    Initializer(Initializer),
    Block(Block),
    BlockItem(BlockItem),
    Statement(Statement),
    Expression(Expression),
    ExpressionList(Vec<Expression>),
    ExpressionKind(ExpressionKind),
    Constant(Constant),
    UnaryOp(UnaryOp),
    BinaryOp(BinaryOp),
    AssignOp(AssignOp),
    Token(Token),
    Empty,
}

/// A translation unit: its external declarations and its span.
#[derive(Debug)]
pub struct TranslationUnit {
    pub ext_decls: Vec<ExternalDeclaration>,
    pub span: Span,
}

/// A function definition or a variable declaration, with its span.
#[derive(Debug)]
pub enum ExternalDeclaration {
    Function(FunctionDefinition, Span),
    Variable(Declaration, Span),
}

/// A function definition; `body` is `None` for an extern declaration.
#[derive(Debug)]
pub struct FunctionDefinition {
    pub name: String,
    pub ret_ty: Type,
    pub params: Vec<Parameter>,
    pub is_variadic: bool,
    pub body: Option<Block>,
    pub span: Span,
}

/// The declaration of one variable.
#[derive(Debug)]
pub struct Declaration {
    pub name: String,
    pub ty: Type,
    pub storage: Option<StorageClass>,
    pub qualifiers: Qualifiers,
    pub init: Option<Initializer>,
    pub span: Span,
}

/// An initializer: an expression, or a braced list.
#[derive(Debug)]
pub enum Initializer {
    Scalar(Expression, Span),
    List(Vec<Initializer>, Span),
}

/// A block and its span.
#[derive(Debug)]
pub struct Block {
    pub items: Vec<BlockItem>,
    pub span: Span,
}

/// An item of a block.
#[derive(Debug)]
pub enum BlockItem {
    Declaration(Declaration, Span),
    Statement(Statement, Span),
}

/// A statement with its span.
#[derive(Debug)]
pub enum Statement {
    Labeled { label: String, stmt: Box<Statement>, span: Span },
    Case { value: i64, stmt: Box<Statement>, span: Span },
    Default { stmt: Box<Statement>, span: Span },
    Block(Block, Span),
    Expression(Option<Expression>, Span),
    If { cond: Expression, then_stmt: Box<Statement>, else_stmt: Option<Box<Statement>>, span: Span },
    Switch { cond: Expression, body: Box<Statement>, span: Span },
    While { cond: Expression, body: Box<Statement>, span: Span },
    DoWhile { body: Box<Statement>, cond: Expression, span: Span },
    For {
        init: Option<Expression>,
        cond: Option<Expression>,
        step: Option<Expression>,
        body: Box<Statement>,
        span: Span,
    },
    Goto { label: String, span: Span },
    Continue(Span),
    Break(Span),
    Return(Option<Expression>, Span),
}

/// An expression, its type once known, and its span.
#[derive(Debug)]
pub struct Expression {
    pub kind: ExpressionKind,
    pub ty: Option<Type>,
    pub span: Span,
}

/// The kinds of expression.
#[derive(Debug)]
pub enum ExpressionKind {
    Literal(Constant, Span),
    Id { name: String, decl_ref: Option<Rc<Symbol>> },
    ArrayAccess { base: Box<Expression>, index: Box<Expression> },
    Call { func: Box<Expression>, args: Vec<Expression> },
    FieldAccess { base: Box<Expression>, field: String },
    Arrow { base: Box<Expression>, field: String },
    PostInc(Box<Expression>),
    PostDec(Box<Expression>),
    PreInc(Box<Expression>),
    PreDec(Box<Expression>),
    Unary { op: UnaryOp, expr: Box<Expression> },
    SizeofExpr(Box<Expression>),
    SizeofType(Type),
    Cast { ty: Type, expr: Box<Expression> },
    Binary { op: BinaryOp, lhs: Box<Expression>, rhs: Box<Expression> },
    Conditional { cond: Box<Expression>, then_expr: Box<Expression>, else_expr: Box<Expression> },
    Assign { lhs: Box<Expression>, op: AssignOp, rhs: Box<Expression> },
    Comma { exprs: Vec<Expression> },
}

/// A constant with its span; adjacent string literals are merged into
/// one. A floating constant is held as the bit pattern of its double.
#[derive(Debug)]
pub enum Constant {
    Int(i64, Span),
    Float(u64, Span),
    Char(u8, Span),
    String(String, Span),
}

/// The span of one token.
pub open spec fn token_span(t: Token) -> Span {
    Span { start: t.beg, end: t.end }
}

/// The text a token carries, for a token whose value is text.
pub open spec fn token_text(t: Token) -> Seq<char> {
    match t.value {
        TokenValue::String(s) => s@,
        _ => Seq::empty(),
    }
}

/// The text a token carries; the token must carry text.
fn take_text(t: Token) -> (r: String)
    requires
        t.value is String,
    ensures
        r@ == token_text(t),
{
    match t.value {
        TokenValue::String(s) => s,
        _ => String::new(),
    }
}

/// The span of an external declaration.
pub open spec fn ext_decl_span(e: ExternalDeclaration) -> Span {
    match e {
        ExternalDeclaration::Function(_, x) => x,
        ExternalDeclaration::Variable(_, x) => x,
    }
}

impl TranslationUnit {
    /// A unit of one external declaration, spanning it.
    pub fn make_translation_unit(ext_decl: ExternalDeclaration) -> (r: TranslationUnit)
        ensures
            r.span == ext_decl_span(ext_decl),
            r.ext_decls@ == seq![ext_decl],
    {
        let span = ext_decl.unwrap_span();
        TranslationUnit { ext_decls: vec![ext_decl], span }
    }

    /// Takes a unit and one more external declaration, and keeps neither:
    /// the unit it widens and appends to is its own copy, which it drops.
    pub fn insert_ext_decl(translation_unit: TranslationUnit, ext_decl: ExternalDeclaration) {
        let mut translation_unit = translation_unit;
        translation_unit.span.merge_self(&ext_decl.unwrap_span());
        translation_unit.ext_decls.push(ext_decl);
    }
}

impl ExternalDeclaration {
    /// A function definition, with its span.
    pub fn make_func(func_def: FunctionDefinition) -> (r: ExternalDeclaration)
        ensures
            r matches ExternalDeclaration::Function(d, s) && d == func_def && s == func_def.span,
    {
        let span = func_def.span;
        ExternalDeclaration::Function(func_def, span)
    }

    /// A variable declaration, with its span.
    pub fn make_variable(decl: Declaration) -> (r: ExternalDeclaration)
        ensures
            r matches ExternalDeclaration::Variable(d, s) && d == decl && s == decl.span,
    {
        let span = decl.span;
        ExternalDeclaration::Variable(decl, span)
    }

    /// The span of the declaration.
    pub fn unwrap_span(&self) -> (r: Span)
        ensures
            r == ext_decl_span(*self),
    {
        match self {
            ExternalDeclaration::Function(_, x) => *x,
            ExternalDeclaration::Variable(_, x) => *x,
        }
    }
}

/// The storage class a storage-class keyword of kind `kind` stands for.
pub open spec fn storage_class_of(kind: TokenKind, span: Span) -> Option<StorageClass> {
    match kind {
        TokenKind::KeywordTypedef => Some(StorageClass::Typedef(span)),
        TokenKind::KeywordExtern => Some(StorageClass::Extern(span)),
        TokenKind::KeywordStatic => Some(StorageClass::Static(span)),
        TokenKind::KeywordAuto => Some(StorageClass::Auto(span)),
        TokenKind::KeywordRegister => Some(StorageClass::Register(span)),
        _ => None,
    }
}

/// Each storage-class keyword stands for the storage class of the same name, carrying the token's span, and
/// every other token kind for none.
pub proof fn lemma_storage_class_of_table(span: Span)
    ensures
        storage_class_of(TokenKind::KeywordTypedef, span) == Some(StorageClass::Typedef(span)),
        storage_class_of(TokenKind::KeywordExtern, span) == Some(StorageClass::Extern(span)),
        storage_class_of(TokenKind::KeywordStatic, span) == Some(StorageClass::Static(span)),
        storage_class_of(TokenKind::KeywordAuto, span) == Some(StorageClass::Auto(span)),
        storage_class_of(TokenKind::KeywordRegister, span) == Some(StorageClass::Register(span)),
        forall|k: TokenKind|
            !(k == TokenKind::KeywordTypedef
                || k == TokenKind::KeywordExtern
                || k == TokenKind::KeywordStatic
                || k == TokenKind::KeywordAuto
                || k == TokenKind::KeywordRegister
            ) ==> #[trigger] storage_class_of(k, span) is None,
{
}

impl StorageClass {
    /// The storage class of a keyword `token` of kind `kind`.
    pub fn make(token: Token, kind: TokenKind) -> (r: StorageClass)
        requires
            storage_class_of(kind, token_span(token)) is Some,
        ensures
            storage_class_of(kind, token_span(token)) == Some(r),
    {
        let span = Span::from_token(&token);
        match kind {
            TokenKind::KeywordTypedef => StorageClass::Typedef(span),
            TokenKind::KeywordExtern => StorageClass::Extern(span),
            TokenKind::KeywordStatic => StorageClass::Static(span),
            TokenKind::KeywordAuto => StorageClass::Auto(span),
            _ => StorageClass::Register(span),
        }
    }
}

impl Qualifiers {
    /// Adds the qualifier of kind `kind` to the qualifiers so far, if any.
    pub fn make(decl: Option<Qualifiers>, qual: Token, kind: TokenKind) -> (r: Qualifiers)
        requires
            kind == TokenKind::KeywordConst || kind == TokenKind::KeywordVolatile,
        ensures
            r.is_const == (kind == TokenKind::KeywordConst || (decl matches Some(d) && d.is_const)),
            r.is_volatile == (kind == TokenKind::KeywordVolatile || (decl matches Some(d) && d.is_volatile)),
    {
        match (decl, kind) {
            (None, TokenKind::KeywordConst) => Qualifiers::new(true, false),
            (Some(d), TokenKind::KeywordConst) => {
                let mut d = d;
                d.set_const();
                d
            },
            (None, _) => Qualifiers::new(false, true),
            (Some(d), _) => {
                let mut d = d;
                d.set_volatile();
                d
            },
        }
    }
}

/// The span of a statement.
pub open spec fn stmt_span(s: Statement) -> Span {
    match s {
        Statement::Labeled { span, .. } => span,
        Statement::Case { span, .. } => span,
        Statement::Default { span, .. } => span,
        Statement::Block(_, span) => span,
        Statement::Expression(_, span) => span,
        Statement::If { span, .. } => span,
        Statement::Switch { span, .. } => span,
        Statement::While { span, .. } => span,
        Statement::DoWhile { span, .. } => span,
        Statement::For { span, .. } => span,
        Statement::Goto { span, .. } => span,
        Statement::Continue(span) => span,
        Statement::Break(span) => span,
        Statement::Return(_, span) => span,
    }
}

/// The value of a `case` label: the integer or character of a literal.
pub open spec fn case_value(e: Expression) -> Option<i64> {
    match e.kind {
        ExpressionKind::Literal(c, _) => match c {
            Constant::Int(x, _) => Some(x),
            Constant::Char(x, _) => Some(x as i64),
            _ => None,
        },
        _ => None,
    }
}

/// The span a literal expression records with its constant.
pub open spec fn literal_span(e: Expression) -> Span {
    match e.kind {
        ExpressionKind::Literal(_, sp) => sp,
        _ => e.span,
    }
}

impl Statement {
    /// The span of the statement.
    pub fn unwrap_span(&self) -> (r: Span)
        ensures
            r == stmt_span(*self),
    {
        match self {
            Statement::Labeled { span, .. }
            | Statement::Case { span, .. }
            | Statement::Default { span, .. }
            | Statement::Block(_, span)
            | Statement::Expression(_, span)
            | Statement::If { span, .. }
            | Statement::Switch { span, .. }
            | Statement::While { span, .. }
            | Statement::DoWhile { span, .. }
            | Statement::For { span, .. }
            | Statement::Goto { span, .. }
            | Statement::Continue(span)
            | Statement::Break(span)
            | Statement::Return(_, span) => *span,
        }
    }

    /// `case constexpr: stmt`; the label must be an integer or character
    /// literal, and the statement spans the literal.
    pub fn make_case(constexpr: Expression, stmt: Statement) -> (r: Statement)
        requires
            case_value(constexpr) is Some,
        ensures
            r matches Statement::Case { value, stmt: s, span } && value == case_value(constexpr)->0 && *s == stmt
                && span == literal_span(constexpr),
    {
        match constexpr.kind {
            ExpressionKind::Literal(constant, span) => {
                let value = match constant {
                    Constant::Int(x, _) => x,
                    Constant::Char(x, _) => x as i64,
                    _ => 0,
                };
                Statement::Case { value, stmt: Box::new(stmt), span }
            },
            _ => Statement::Continue(Span { start: 0, end: 0 }),
        }
    }

    /// `expr;` or `;`, from the expression, if any, to the semicolon.
    pub fn make_expression(expr: Option<Expression>, semi: Token) -> (r: Statement)
        ensures
            r matches Statement::Expression(e, span) && e == expr && span == (match expr {
                Some(x) => spec_merge(token_span(semi), x.span),
                None => token_span(semi),
            }),
    {
        let span = Span::from_token(&semi);
        let span = match &expr {
            Some(x) => span.merge(&x.span),
            None => span,
        };
        Statement::Expression(expr, span)
    }

    /// `if (cond) then_stmt [else else_stmt]`, from `if` to the end of the
    /// `else` branch, if any.
    pub fn make_if(if_token: Token, cond: Expression, then_stmt: Statement, else_stmt: Option<Statement>) -> (r: Statement)
        ensures
            r matches Statement::If { cond: c, then_stmt: t, else_stmt: e, span } && c == cond && *t == then_stmt
                && e == (match else_stmt {
                Some(x) => Some(Box::new(x)),
                None => None,
            }) && span == (match else_stmt {
                Some(x) => spec_merge(token_span(if_token), stmt_span(x)),
                None => token_span(if_token),
            }),
    {
        let span = Span::from_token(&if_token);
        let span = match &else_stmt {
            None => span,
            Some(x) => span.merge(&x.unwrap_span()),
        };
        let else_stmt = match else_stmt {
            Some(x) => Some(Box::new(x)),
            None => None,
        };
        Statement::If { cond, then_stmt: Box::new(then_stmt), else_stmt, span }
    }

    /// `switch (cond) body`.
    pub fn make_switch(switch_token: Token, cond: Expression, body: Statement) -> (r: Statement)
        ensures
            r matches Statement::Switch { cond: c, body: b, span } && c == cond && *b == body && span == spec_merge(
                token_span(switch_token),
                stmt_span(body),
            ),
    {
        let span = Span::from_token(&switch_token).merge(&body.unwrap_span());
        Statement::Switch { cond, body: Box::new(body), span }
    }

    /// `while (cond) body` or `do body while (cond)`, as `kind`, the kind
    /// of the first token, says; the span runs from that token over the
    /// body, and to `rparen` when it is given.
    pub fn make_while(while_token: Token, kind: TokenKind, cond: Expression, body: Statement, rparen: Option<Token>) -> (r:
        Statement)
        requires
            kind == TokenKind::KeywordWhile || kind == TokenKind::KeywordDo,
        ensures
            ({
                let span0 = spec_merge(token_span(while_token), stmt_span(body));
                let span = match rparen {
                    Some(x) => spec_merge(token_span(x), span0),
                    None => span0,
                };
                if kind == TokenKind::KeywordWhile {
                    r matches Statement::While { cond: c, body: b, span: s } && c == cond && *b == body && s == span
                } else {
                    r matches Statement::DoWhile { cond: c, body: b, span: s } && c == cond && *b == body && s == span
                }
            }),
    {
        let span = Span::from_token(&while_token).merge(&body.unwrap_span());
        let span = match rparen {
            None => span,
            Some(x) => Span::from_token(&x).merge(&span),
        };
        match kind {
            TokenKind::KeywordWhile => Statement::While { cond, body: Box::new(body), span },
            _ => Statement::DoWhile { cond, body: Box::new(body), span },
        }
    }

    /// `for (init; cond; step) body`, from `for` over the body.
    pub fn make_for(
        for_token: Token,
        init_opt: Option<Expression>,
        cond_opt: Option<Expression>,
        step_opt: Option<Expression>,
        body: Statement,
    ) -> (r: Statement)
        ensures
            r matches Statement::For { init, cond, step, body: b, span } && init == init_opt && cond == cond_opt && step
                == step_opt && *b == body && span == spec_merge(token_span(for_token), stmt_span(body)),
    {
        let span = Span::from_token(&for_token).merge(&body.unwrap_span());
        Statement::For { init: init_opt, cond: cond_opt, step: step_opt, body: Box::new(body), span }
    }

    /// `goto label`, from `goto` to the label.
    pub fn make_goto(goto: Token, label: Token) -> (r: Statement)
        requires
            label.value is String,
        ensures
            r matches Statement::Goto { label: l, span } && l@ == token_text(label) && span == spec_merge(
                token_span(goto),
                token_span(label),
            ),
    {
        let goto_span = Span::from_token(&goto);
        let label_span = Span::from_token(&label);
        let span = goto_span.merge(&label_span);
        Statement::Goto { label: take_text(label), span }
    }

    /// `continue` or `break`, as `kind` says.
    pub fn make_continue_break(token: Token, kind: TokenKind) -> (r: Statement)
        requires
            kind == TokenKind::KeywordContinue || kind == TokenKind::KeywordBreak,
        ensures
            r == (if kind == TokenKind::KeywordContinue {
                Statement::Continue(token_span(token))
            } else {
                Statement::Break(token_span(token))
            }),
    {
        let span = Span::from_token(&token);
        match kind {
            TokenKind::KeywordContinue => Statement::Continue(span),
            _ => Statement::Break(span),
        }
    }

    /// `return [expr]`, from `return` to the end of the value, if any.
    pub fn make_return(ret: Token, expr: Option<Expression>) -> (r: Statement)
        ensures
            r matches Statement::Return(e, span) && e == expr && span == (match expr {
                Some(x) => spec_merge(token_span(ret), x.span),
                None => token_span(ret),
            }),
    {
        let ret_span = Span::from_token(&ret);
        let span = match &expr {
            None => ret_span,
            Some(x) => ret_span.merge(&x.span),
        };
        Statement::Return(expr, span)
    }
}

/// Whether an expression designates an object: a name, an element, a
/// member, a postfix update, a dereference, or a cast of one of
/// these. An assignment yields a value and is no lvalue.
pub open spec fn spec_is_lvalue(e: Expression) -> bool
    decreases e,
{
    match e.kind {
        ExpressionKind::Id { .. } => true,
        ExpressionKind::ArrayAccess { .. } => true,
        ExpressionKind::FieldAccess { .. } => true,
        ExpressionKind::Arrow { .. } => true,
        ExpressionKind::PostInc(_) => true,
        ExpressionKind::PostDec(_) => true,
        ExpressionKind::Unary { op, .. } => op is Deref,
        ExpressionKind::Cast { expr, .. } => spec_is_lvalue(*expr),
        ExpressionKind::Assign { .. } => false,
        _ => false,
    }
}

/// The span of a constant.
pub open spec fn constant_span(c: Constant) -> Span {
    match c {
        Constant::Int(_, x) => x,
        Constant::Float(_, x) => x,
        Constant::Char(_, x) => x,
        Constant::String(_, x) => x,
    }
}

/// The unary operator a token kind stands for, with the token's span.
pub open spec fn unary_op_of(kind: TokenKind, span: Span) -> Option<UnaryOp> {
    match kind {
        TokenKind::OpBitand => Some(UnaryOp::AddressOf(span)),
        TokenKind::OpTimes => Some(UnaryOp::Deref(span)),
        TokenKind::OpPlus => Some(UnaryOp::Plus(span)),
        TokenKind::OpMinus => Some(UnaryOp::Minus(span)),
        TokenKind::OpBitNot => Some(UnaryOp::BitNot(span)),
        TokenKind::OpNot => Some(UnaryOp::LogicalNot(span)),
        _ => None,
    }
}

/// Each operator token stands for the unary operator of the same name, carrying the token's span, and
/// every other token kind for none.
pub proof fn lemma_unary_op_of_table(span: Span)
    ensures
        unary_op_of(TokenKind::OpBitand, span) == Some(UnaryOp::AddressOf(span)),
        unary_op_of(TokenKind::OpTimes, span) == Some(UnaryOp::Deref(span)),
        unary_op_of(TokenKind::OpPlus, span) == Some(UnaryOp::Plus(span)),
        unary_op_of(TokenKind::OpMinus, span) == Some(UnaryOp::Minus(span)),
        unary_op_of(TokenKind::OpBitNot, span) == Some(UnaryOp::BitNot(span)),
        unary_op_of(TokenKind::OpNot, span) == Some(UnaryOp::LogicalNot(span)),
        forall|k: TokenKind|
            !(k == TokenKind::OpBitand
                || k == TokenKind::OpTimes
                || k == TokenKind::OpPlus
                || k == TokenKind::OpMinus
                || k == TokenKind::OpBitNot
                || k == TokenKind::OpNot
            ) ==> #[trigger] unary_op_of(k, span) is None,
{
}

/// The binary operator a token kind stands for, with the token's span.
pub open spec fn binary_op_of(kind: TokenKind, span: Span) -> Option<BinaryOp> {
    match kind {
        TokenKind::OpPlus => Some(BinaryOp::Add(span)),
        TokenKind::OpMinus => Some(BinaryOp::Sub(span)),
        TokenKind::OpTimes => Some(BinaryOp::Mul(span)),
        TokenKind::OpDivide => Some(BinaryOp::Div(span)),
        TokenKind::OpMod => Some(BinaryOp::Mod(span)),
        TokenKind::OpLShift => Some(BinaryOp::Shl(span)),
        TokenKind::OpRShift => Some(BinaryOp::Shr(span)),
        TokenKind::OpLt => Some(BinaryOp::Lt(span)),
        TokenKind::OpGt => Some(BinaryOp::Gt(span)),
        TokenKind::OpLe => Some(BinaryOp::Le(span)),
        TokenKind::OpGe => Some(BinaryOp::Ge(span)),
        TokenKind::OpEq => Some(BinaryOp::Eq(span)),
        TokenKind::OpNe => Some(BinaryOp::Ne(span)),
        TokenKind::OpBitand => Some(BinaryOp::BitAnd(span)),
        TokenKind::OpXor => Some(BinaryOp::BitXor(span)),
        TokenKind::OpBitor => Some(BinaryOp::BitOr(span)),
        TokenKind::OpAnd => Some(BinaryOp::LogicalAnd(span)),
        TokenKind::OpOr => Some(BinaryOp::LogicalOr(span)),
        _ => None,
    }
}

/// Each operator token stands for the binary operator of the same name, carrying the token's span, and
/// every other token kind for none.
pub proof fn lemma_binary_op_of_table(span: Span)
    ensures
        binary_op_of(TokenKind::OpPlus, span) == Some(BinaryOp::Add(span)),
        binary_op_of(TokenKind::OpMinus, span) == Some(BinaryOp::Sub(span)),
        binary_op_of(TokenKind::OpTimes, span) == Some(BinaryOp::Mul(span)),
        binary_op_of(TokenKind::OpDivide, span) == Some(BinaryOp::Div(span)),
        binary_op_of(TokenKind::OpMod, span) == Some(BinaryOp::Mod(span)),
        binary_op_of(TokenKind::OpLShift, span) == Some(BinaryOp::Shl(span)),
        binary_op_of(TokenKind::OpRShift, span) == Some(BinaryOp::Shr(span)),
        binary_op_of(TokenKind::OpLt, span) == Some(BinaryOp::Lt(span)),
        binary_op_of(TokenKind::OpGt, span) == Some(BinaryOp::Gt(span)),
        binary_op_of(TokenKind::OpLe, span) == Some(BinaryOp::Le(span)),
        binary_op_of(TokenKind::OpGe, span) == Some(BinaryOp::Ge(span)),
        binary_op_of(TokenKind::OpEq, span) == Some(BinaryOp::Eq(span)),
        binary_op_of(TokenKind::OpNe, span) == Some(BinaryOp::Ne(span)),
        binary_op_of(TokenKind::OpBitand, span) == Some(BinaryOp::BitAnd(span)),
        binary_op_of(TokenKind::OpXor, span) == Some(BinaryOp::BitXor(span)),
        binary_op_of(TokenKind::OpBitor, span) == Some(BinaryOp::BitOr(span)),
        binary_op_of(TokenKind::OpAnd, span) == Some(BinaryOp::LogicalAnd(span)),
        binary_op_of(TokenKind::OpOr, span) == Some(BinaryOp::LogicalOr(span)),
        forall|k: TokenKind|
            !(k == TokenKind::OpPlus
                || k == TokenKind::OpMinus
                || k == TokenKind::OpTimes
                || k == TokenKind::OpDivide
                || k == TokenKind::OpMod
                || k == TokenKind::OpLShift
                || k == TokenKind::OpRShift
                || k == TokenKind::OpLt
                || k == TokenKind::OpGt
                || k == TokenKind::OpLe
                || k == TokenKind::OpGe
                || k == TokenKind::OpEq
                || k == TokenKind::OpNe
                || k == TokenKind::OpBitand
                || k == TokenKind::OpXor
                || k == TokenKind::OpBitor
                || k == TokenKind::OpAnd
                || k == TokenKind::OpOr
            ) ==> #[trigger] binary_op_of(k, span) is None,
{
}

/// The assignment operator a token kind stands for, with the token's span;
/// `^=` is not among them.
pub open spec fn assign_op_of(kind: TokenKind, span: Span) -> Option<AssignOp> {
    match kind {
        TokenKind::OpAssign => Some(AssignOp::Assign(span)),
        TokenKind::OpMulAssign => Some(AssignOp::MulAssign(span)),
        TokenKind::OpDivAssign => Some(AssignOp::DivAssign(span)),
        TokenKind::OpModAssign => Some(AssignOp::ModAssign(span)),
        TokenKind::OpAddAssign => Some(AssignOp::AddAssign(span)),
        TokenKind::OpSubAssign => Some(AssignOp::SubAssign(span)),
        TokenKind::OpLShiftAssign => Some(AssignOp::ShlAssign(span)),
        TokenKind::OpRShiftAssign => Some(AssignOp::ShrAssign(span)),
        TokenKind::OpAndAssign => Some(AssignOp::AndAssign(span)),
        TokenKind::OpOrAssign => Some(AssignOp::OrAssign(span)),
        _ => None,
    }
}

/// Each assignment token stands for the assignment operator of the same name, carrying the token's span, and
/// every other token kind for none.
pub proof fn lemma_assign_op_of_table(span: Span)
    ensures
        assign_op_of(TokenKind::OpAssign, span) == Some(AssignOp::Assign(span)),
        assign_op_of(TokenKind::OpMulAssign, span) == Some(AssignOp::MulAssign(span)),
        assign_op_of(TokenKind::OpDivAssign, span) == Some(AssignOp::DivAssign(span)),
        assign_op_of(TokenKind::OpModAssign, span) == Some(AssignOp::ModAssign(span)),
        assign_op_of(TokenKind::OpAddAssign, span) == Some(AssignOp::AddAssign(span)),
        assign_op_of(TokenKind::OpSubAssign, span) == Some(AssignOp::SubAssign(span)),
        assign_op_of(TokenKind::OpLShiftAssign, span) == Some(AssignOp::ShlAssign(span)),
        assign_op_of(TokenKind::OpRShiftAssign, span) == Some(AssignOp::ShrAssign(span)),
        assign_op_of(TokenKind::OpAndAssign, span) == Some(AssignOp::AndAssign(span)),
        assign_op_of(TokenKind::OpOrAssign, span) == Some(AssignOp::OrAssign(span)),
        forall|k: TokenKind|
            !(k == TokenKind::OpAssign
                || k == TokenKind::OpMulAssign
                || k == TokenKind::OpDivAssign
                || k == TokenKind::OpModAssign
                || k == TokenKind::OpAddAssign
                || k == TokenKind::OpSubAssign
                || k == TokenKind::OpLShiftAssign
                || k == TokenKind::OpRShiftAssign
                || k == TokenKind::OpAndAssign
                || k == TokenKind::OpOrAssign
            ) ==> #[trigger] assign_op_of(k, span) is None,
{
}

impl Expression {
    /// Whether the expression designates an object (see `spec_is_lvalue`).
    pub fn is_lvalue(&self) -> (r: bool)
        ensures
            r == spec_is_lvalue(*self),
        decreases self,
    {
        match &self.kind {
            ExpressionKind::Id { .. } => true,
            ExpressionKind::ArrayAccess { .. } => true,
            ExpressionKind::FieldAccess { .. } => true,
            ExpressionKind::Arrow { .. } => true,
            ExpressionKind::PostInc(_) => true,
            ExpressionKind::PostDec(_) => true,
            ExpressionKind::Unary { op, .. } => op.is_lvalue(),
            ExpressionKind::Cast { expr, .. } => expr.is_lvalue(),
            ExpressionKind::Assign { .. } => false,
            _ => false,
        }
    }

    /// Whether the expression is not an lvalue.
    pub fn is_rvalue(&self) -> (r: bool)
        ensures
            r == !spec_is_lvalue(*self),
    {
        !self.is_lvalue()
    }

    /// A literal, spanning the constant.
    pub fn make_literal(constant: Constant) -> (r: Expression)
        ensures
            r.span == constant_span(constant),
            r.ty is None,
            r.kind == ExpressionKind::Literal(constant, constant_span(constant)),
    {
        let span = constant.unwrap_span();
        Expression { kind: ExpressionKind::Literal(constant, span), ty: None, span }
    }

    /// The kind of a name expression: the token's text, not yet resolved.
    pub fn make_id(token: Token) -> (r: ExpressionKind)
        requires
            token.value is String,
        ensures
            r matches ExpressionKind::Id { name, decl_ref } && name@ == token_text(token) && decl_ref is None,
    {
        ExpressionKind::Id { name: take_text(token), decl_ref: None }
    }

    /// `base[index]`, from the base to the closing bracket `token`.
    pub fn make_array_access(base: Expression, index: Expression, token: Token) -> (r: Expression)
        ensures
            r.span == spec_merge(base.span, token_span(token)),
            r.ty is None,
            r.kind == (ExpressionKind::ArrayAccess { base: Box::new(base), index: Box::new(index) }),
    {
        let span = base.span.merge(&Span::from_token(&token));
        Expression { kind: ExpressionKind::ArrayAccess { base: Box::new(base), index: Box::new(index) }, ty: None, span }
    }

    /// `func(args)`, from the callee to the closing parenthesis `token`.
    pub fn make_call(func: Expression, args: Vec<Expression>, token: Token) -> (r: Expression)
        ensures
            r.span == spec_merge(func.span, token_span(token)),
            r.ty is None,
            r.kind == (ExpressionKind::Call { func: Box::new(func), args }),
    {
        let span = func.span.merge(&Span::from_token(&token));
        Expression { kind: ExpressionKind::Call { func: Box::new(func), args }, ty: None, span }
    }

    /// `base.field`.
    pub fn make_field_access(base: Expression, field: Token) -> (r: Expression)
        requires
            field.value is String,
        ensures
            r.span == spec_merge(base.span, token_span(field)),
            r.ty is None,
            r.kind matches ExpressionKind::FieldAccess { base: b, field: f } && *b == base && f@ == token_text(field),
    {
        let span = base.span.merge(&Span::from_token(&field));
        let field = take_text(field);
        Expression { kind: ExpressionKind::FieldAccess { base: Box::new(base), field }, ty: None, span }
    }

    /// `base->field`.
    pub fn make_arrow(base: Expression, field: Token) -> (r: Expression)
        requires
            field.value is String,
        ensures
            r.span == spec_merge(base.span, token_span(field)),
            r.ty is None,
            r.kind matches ExpressionKind::Arrow { base: b, field: f } && *b == base && f@ == token_text(field),
    {
        let span = base.span.merge(&Span::from_token(&field));
        let field = take_text(field);
        Expression { kind: ExpressionKind::Arrow { base: Box::new(base), field }, ty: None, span }
    }

    /// `++` or `--`, as `kind` says, after the operand when `post` holds
    /// and before it otherwise.
    pub fn make_update(expr: Expression, token: Token, kind: TokenKind, post: bool) -> (r: Expression)
        requires
            kind == TokenKind::OpInc || kind == TokenKind::OpDec,
        ensures
            r.span == spec_merge(token_span(token), expr.span),
            r.ty is None,
            r.kind == (if kind == TokenKind::OpDec {
                if post {
                    ExpressionKind::PostDec(Box::new(expr))
                } else {
                    ExpressionKind::PreDec(Box::new(expr))
                }
            } else {
                if post {
                    ExpressionKind::PostInc(Box::new(expr))
                } else {
                    ExpressionKind::PreInc(Box::new(expr))
                }
            }),
    {
        let span = Span::from_token(&token).merge(&expr.span);
        let kind = match (kind, post) {
            (TokenKind::OpDec, true) => ExpressionKind::PostDec(Box::new(expr)),
            (TokenKind::OpDec, false) => ExpressionKind::PreDec(Box::new(expr)),
            (_, true) => ExpressionKind::PostInc(Box::new(expr)),
            (_, false) => ExpressionKind::PreInc(Box::new(expr)),
        };
        Expression { kind, ty: None, span }
    }

    /// A unary operator of kind `kind` applied to `expr`.
    pub fn make_unary(token: Token, kind: TokenKind, expr: Expression) -> (r: Expression)
        requires
            unary_op_of(kind, token_span(token)) is Some,
        ensures
            r.span == spec_merge(token_span(token), expr.span),
            r.ty is None,
            r.kind == (ExpressionKind::Unary {
                op: unary_op_of(kind, token_span(token))->0,
                expr: Box::new(expr),
            }),
    {
        let token_span = Span::from_token(&token);
        let span = token_span.merge(&expr.span);
        let op = match kind {
            TokenKind::OpBitand => UnaryOp::AddressOf(token_span),
            TokenKind::OpTimes => UnaryOp::Deref(token_span),
            TokenKind::OpPlus => UnaryOp::Plus(token_span),
            TokenKind::OpMinus => UnaryOp::Minus(token_span),
            TokenKind::OpBitNot => UnaryOp::BitNot(token_span),
            _ => UnaryOp::LogicalNot(token_span),
        };
        Expression { kind: ExpressionKind::Unary { op, expr: Box::new(expr) }, ty: None, span }
    }

    /// `sizeof expr`, spanning the operand.
    pub fn make_sizeof_expr(sizeof: Token, expr: Expression) -> (r: Expression)
        ensures
            r.span == expr.span,
            r.ty is None,
            r.kind == ExpressionKind::SizeofExpr(Box::new(expr)),
    {
        let span = expr.span;
        Expression { kind: ExpressionKind::SizeofExpr(Box::new(expr)), ty: None, span }
    }

    /// `sizeof(type)`, from `sizeof` to the closing parenthesis.
    pub fn make_sizeof_type(sizeof: Token, typ: Type, rparen: Token) -> (r: Expression)
        ensures
            r.span == spec_merge(token_span(sizeof), token_span(rparen)),
            r.ty is None,
            r.kind == ExpressionKind::SizeofType(typ),
    {
        let span = Span::from_token(&sizeof).merge(&Span::from_token(&rparen));
        Expression { kind: ExpressionKind::SizeofType(typ), ty: None, span }
    }

    /// `(type) expr`, from the opening parenthesis over the operand.
    pub fn make_cast(token: Token, typ: Type, expr: Expression) -> (r: Expression)
        ensures
            r.span == spec_merge(token_span(token), expr.span),
            r.ty is None,
            r.kind == (ExpressionKind::Cast { ty: typ, expr: Box::new(expr) }),
    {
        let span = Span::from_token(&token).merge(&expr.span);
        Expression { kind: ExpressionKind::Cast { ty: typ, expr: Box::new(expr) }, ty: None, span }
    }

    /// A binary operator of kind `kind` between `lhs` and `rhs`.
    pub fn make_binary(lhs: Expression, token: Token, kind: TokenKind, rhs: Expression) -> (r: Expression)
        requires
            binary_op_of(kind, token_span(token)) is Some,
        ensures
            r.span == spec_merge(lhs.span, rhs.span),
            r.ty is None,
            r.kind == (ExpressionKind::Binary {
                op: binary_op_of(kind, token_span(token))->0,
                lhs: Box::new(lhs),
                rhs: Box::new(rhs),
            }),
    {
        let span = lhs.span.merge(&rhs.span);
        let s = Span::from_token(&token);
        let op = match kind {
            TokenKind::OpPlus => BinaryOp::Add(s),
            TokenKind::OpMinus => BinaryOp::Sub(s),
            TokenKind::OpTimes => BinaryOp::Mul(s),
            TokenKind::OpDivide => BinaryOp::Div(s),
            TokenKind::OpMod => BinaryOp::Mod(s),
            TokenKind::OpLShift => BinaryOp::Shl(s),
            TokenKind::OpRShift => BinaryOp::Shr(s),
            TokenKind::OpLt => BinaryOp::Lt(s),
            TokenKind::OpGt => BinaryOp::Gt(s),
            TokenKind::OpLe => BinaryOp::Le(s),
            TokenKind::OpGe => BinaryOp::Ge(s),
            TokenKind::OpEq => BinaryOp::Eq(s),
            TokenKind::OpNe => BinaryOp::Ne(s),
            TokenKind::OpBitand => BinaryOp::BitAnd(s),
            TokenKind::OpXor => BinaryOp::BitXor(s),
            TokenKind::OpBitor => BinaryOp::BitOr(s),
            TokenKind::OpAnd => BinaryOp::LogicalAnd(s),
            _ => BinaryOp::LogicalOr(s),
        };
        Expression { kind: ExpressionKind::Binary { op, lhs: Box::new(lhs), rhs: Box::new(rhs) }, ty: None, span }
    }

    /// `cond ? then_expr : else_expr`, from the condition to the else
    /// branch.
    pub fn make_conditional(cond: Expression, then_expr: Expression, else_expr: Expression) -> (r: Expression)
        ensures
            r.span == spec_merge(cond.span, else_expr.span),
            r.ty is None,
            r.kind == (ExpressionKind::Conditional {
                cond: Box::new(cond),
                then_expr: Box::new(then_expr),
                else_expr: Box::new(else_expr),
            }),
    {
        let span = cond.span.merge(&else_expr.span);
        let kind = ExpressionKind::Conditional {
            cond: Box::new(cond),
            then_expr: Box::new(then_expr),
            else_expr: Box::new(else_expr),
        };
        Expression { kind, ty: None, span }
    }

    /// An assignment of kind `kind` to `lhs`, which must be an lvalue.
    pub fn make_assign(lhs: Expression, token: Token, kind: TokenKind, rhs: Expression) -> (r: Expression)
        requires
            spec_is_lvalue(lhs),
            assign_op_of(kind, token_span(token)) is Some,
        ensures
            r.span == spec_merge(lhs.span, rhs.span),
            r.ty is None,
            r.kind == (ExpressionKind::Assign {
                lhs: Box::new(lhs),
                op: assign_op_of(kind, token_span(token))->0,
                rhs: Box::new(rhs),
            }),
    {
        let s = Span::from_token(&token);
        let op = match kind {
            TokenKind::OpAssign => AssignOp::Assign(s),
            TokenKind::OpMulAssign => AssignOp::MulAssign(s),
            TokenKind::OpDivAssign => AssignOp::DivAssign(s),
            TokenKind::OpModAssign => AssignOp::ModAssign(s),
            TokenKind::OpAddAssign => AssignOp::AddAssign(s),
            TokenKind::OpSubAssign => AssignOp::SubAssign(s),
            TokenKind::OpLShiftAssign => AssignOp::ShlAssign(s),
            TokenKind::OpRShiftAssign => AssignOp::ShrAssign(s),
            TokenKind::OpAndAssign => AssignOp::AndAssign(s),
            _ => AssignOp::OrAssign(s),
        };
        let span = lhs.span.merge(&rhs.span);
        Expression { kind: ExpressionKind::Assign { lhs: Box::new(lhs), op, rhs: Box::new(rhs) }, ty: None, span }
    }

    /// Appends one more expression of a comma expression.
    pub fn make_comma(exprs: Vec<Expression>, expr: Expression) -> (r: Vec<Expression>)
        ensures
            r@ == exprs@.push(expr),
    {
        let mut exprs = exprs;
        exprs.push(expr);
        exprs
    }
}

impl Constant {
    /// The constant a token carries: a number, a floating constant, a
    /// string or a character.
    pub fn make(token: Token) -> (r: Constant)
        requires
            !(token.value is Other),
        ensures
            constant_span(r) == token_span(token),
            match token.value {
                TokenValue::Number { value, .. } => r matches Constant::Int(v, _) && v == value as i64,
                TokenValue::Float(bits) => r matches Constant::Float(v, _) && v == bits,
                TokenValue::String(s) => r matches Constant::String(v, _) && v@ == s@,
                TokenValue::Char(c) => r matches Constant::Char(v, _) && v == c,
                TokenValue::Other => false,
            },
    {
        let span = Span::from_token(&token);
        match token.value {
            TokenValue::Number { value, .. } => Constant::Int(value as i64, span),
            TokenValue::Float(value) => Constant::Float(value, span),
            TokenValue::String(value) => Constant::String(value, span),
            TokenValue::Char(value) => Constant::Char(value, span),
            TokenValue::Other => Constant::Int(0, span),
        }
    }

    /// Appends the text of the string token `token` to the string constant,
    /// whose span grows to cover the token.
    pub fn insert_str(constant: Constant, token: Token) -> (r: Constant)
        requires
            constant is String,
            token.value is String,
        ensures
            r matches Constant::String(s, span) && s@ == constant->String_0@ + token_text(token) && span == spec_merge(
                constant_span(constant),
                token_span(token),
            ),
    {
        let token_span = Span::from_token(&token);
        match constant {
            Constant::String(s, span) => {
                let mut s = s;
                let mut span = span;
                span.merge_self(&token_span);
                let text = take_text(token);
                s.append(text.as_str());
                Constant::String(s, span)
            },
            other => other,
        }
    }

    /// The span of the constant.
    pub fn unwrap_span(&self) -> (r: Span)
        ensures
            r == constant_span(*self),
    {
        match self {
            Constant::Int(_, x) => *x,
            Constant::Float(_, x) => *x,
            Constant::Char(_, x) => *x,
            Constant::String(_, x) => *x,
        }
    }
}

} // verus!
