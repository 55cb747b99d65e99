//! Nodes of the semantic syntax tree: types, qualifiers and operators.

use crate::types::lex::token::{Token, TokenKind, TokenValue};
use crate::types::span::Span;
use crate::types::symbol_table::Symbol;
use std::rc::Rc;
use vstd::prelude::*;

verus! {

/// The top of a translation unit: its external declarations in order.
#[derive(Debug)]
pub struct TranslationUnit {
    pub ext_decls: Vec<ExternalDeclaration>,
}

/// An external declaration: a function definition or a declaration.
#[derive(Debug)]
pub enum ExternalDeclaration {
    Function(FunctionDefinition),
    Declaration(DeclStmt),
}

/// A function definition; `body` is `None` for an extern declaration.
#[derive(Debug)]
pub struct FunctionDefinition {
    pub name: String,
    pub ret_ty: Box<Type>,
    pub params: Vec<Parameter>,
    pub is_variadic: bool,
    pub body: Option<Box<Block>>,
    pub span: Span,
}

/// A declaration statement: the variables it declares, in order.
#[derive(Debug)]
pub struct DeclStmt {
    pub decls: Vec<Declaration>,
    pub span: Span,
}

/// The declaration of one variable.
#[derive(Debug)]
pub struct Declaration {
    pub name: String,
    pub ty: Type,
    pub storage: Option<StorageClass>,
    pub qualifiers: Qualifiers,
    pub init: Option<Initializer>,
    pub span: Span,
}

/// An initializer: one expression, or a braced list of initializers.
#[derive(Debug)]
pub enum Initializer {
    Scalar(Box<Expression>),
    List(Vec<Initializer>),
}

/// A block: its items in order.
#[derive(Debug)]
pub struct Block {
    pub items: Vec<BlockItem>,
}

/// An item of a block: a declaration or a statement.
#[derive(Debug)]
pub enum BlockItem {
    Declaration(DeclStmt),
    Statement(Statement),
}

/// A type with the span of the text that named it.
#[derive(Debug)]
pub struct Type {
    pub kind: TypeKind,
    pub span: Span,
}

/// The C types.
#[derive(Debug)]
pub enum TypeKind {
    Void,
    Integer { signed: bool, size: IntegerSize },
    Floating { size: FloatSize },
    Pointer(Box<Type>),
    Array { elem_ty: Box<Type>, size: Option<u64> },
    Function { ret_ty: Box<Type>, params: Vec<Type>, is_variadic: bool },
    Struct { name: Option<String>, fields: Vec<Field> },
    Union { name: Option<String>, fields: Vec<Field> },
    Enum { name: Option<String>, values: Vec<(String, i64)> },
    NamedType { name: String, decl_ref: Option<Rc<Symbol>> },
}

/// Sizes of the integer types.
#[derive(Debug, Clone, Copy, PartialEq, Eq, Structural)]
pub enum IntegerSize {
    Char,
    Short,
    Int,
    Long,
}

/// Sizes of the floating types; `Float` is the smaller.
#[derive(Debug, Clone, Copy, PartialEq, Eq, Structural)]
pub enum FloatSize {
    Float,
    Double,
}

/// Storage classes.
#[derive(Debug, Clone, Copy, PartialEq, Eq, Structural)]
pub enum StorageClass {
    Typedef(Span),
    Extern(Span),
    Static(Span),
    Auto(Span),
    Register(Span),
}

/// Type qualifiers.
#[derive(Debug, Clone, Copy, PartialEq, Eq, Structural)]
pub struct Qualifiers {
    pub is_const: bool,
    pub is_volatile: bool,
}

/// A member of a struct or union.
#[derive(Debug)]
pub struct Field {
    pub name: String,
    pub ty: Type,
    pub bit_width: Option<u32>,
    pub span: Span,
}

/// A function parameter, whose name and type may be left out.
#[derive(Debug)]
pub struct Parameter {
    pub name: Option<String>,
    pub ty: Option<Type>,
    pub span: Span,
}

/// Kinds of unary operators.
#[derive(Debug, Clone, Copy, PartialEq, Eq, Structural)]
pub enum UnaryOpKind {
    AddressOf,
    Deref,
    Plus,
    Minus,
    BitNot,
    LogicalNot,
}

/// A unary operator and its span.
#[derive(Debug, Clone, Copy, PartialEq, Eq, Structural)]
pub struct UnaryOp {
    pub kind: UnaryOpKind,
    pub span: Span,
}

/// Kinds of binary operators.
#[derive(Debug, Clone, Copy, PartialEq, Eq, Structural)]
pub enum BinaryOpKind {
    Add,
    Sub,
    Mul,
    Div,
    Mod,
    Shl,
    Shr,
    Lt,
    Gt,
    Le,
    Ge,
    Eq,
    Ne,
    BitAnd,
    BitXor,
    BitOr,
    LogicalAnd,
    LogicalOr,
}

/// A binary operator and its span.
#[derive(Debug, Clone, Copy, PartialEq, Eq, Structural)]
pub struct BinaryOp {
    pub kind: BinaryOpKind,
    pub span: Span,
}

/// Kinds of assignment operators.
#[derive(Debug, Clone, Copy, PartialEq, Eq, Structural)]
pub enum AssignOpKind {
    Assign,
    MulAssign,
    DivAssign,
    ModAssign,
    AddAssign,
    SubAssign,
    ShlAssign,
    ShrAssign,
    AndAssign,
    XorAssign,
    OrAssign,
}

/// An assignment operator and its span.
#[derive(Debug, Clone, Copy, PartialEq, Eq, Structural)]
pub struct AssignOp {
    pub kind: AssignOpKind,
    pub span: Span,
}

impl Type {
    /// A type of the given kind, named by `span`.
    pub fn new(kind: TypeKind, span: Span) -> (r: Type)
        ensures
            r.kind == kind,
            r.span == span,
    {
        Type { kind, span }
    }

    /// The array type of a string literal of `len` characters: `len`
    /// unsigned chars, each part named by `span`.
    pub fn string_type(len: u64, span: Span) -> (r: Self)
        ensures
            r.span == span,
            r.kind == (TypeKind::Array {
                elem_ty: Box::new(Type { kind: TypeKind::Integer { signed: false, size: IntegerSize::Char }, span }),
                size: Some(len),
            }),
    {
        let int_kind = TypeKind::Integer { signed: false, size: IntegerSize::Char };
        let int_ty = Self { kind: int_kind, span };
        let kind = TypeKind::Array { elem_ty: Box::new(int_ty), size: Some(len) };
        Self { kind, span }
    }

    /// Whether the type is an integer type.
    pub fn is_integer(&self) -> (r: bool)
        ensures
            r == (self.kind is Integer),
    {
        match self.kind {
            TypeKind::Integer { .. } => true,
            _ => false,
        }
    }

    /// Whether the type is a floating type.
    pub fn is_floating(&self) -> (r: bool)
        ensures
            r == (self.kind is Floating),
    {
        match self.kind {
            TypeKind::Floating { .. } => true,
            _ => false,
        }
    }

    /// Whether the type is a pointer type.
    pub fn is_pointer(&self) -> (r: bool)
        ensures
            r == (self.kind is Pointer),
    {
        match self.kind {
            TypeKind::Pointer(_) => true,
            _ => false,
        }
    }

    /// Whether the type is an array type.
    pub fn is_array(&self) -> (r: bool)
        ensures
            r == (self.kind is Array),
    {
        match self.kind {
            TypeKind::Array { .. } => true,
            _ => false,
        }
    }

    /// Whether the type is a function type.
    pub fn is_function(&self) -> (r: bool)
        ensures
            r == (self.kind is Function),
    {
        match self.kind {
            TypeKind::Function { .. } => true,
            _ => false,
        }
    }

    /// Whether the type is an integer or a floating type.
    pub fn is_arithmetic(&self) -> (r: bool)
        ensures
            r == (self.kind is Integer || self.kind is Floating),
    {
        self.is_integer() || self.is_floating()
    }

    /// Whether the type is a name that a typedef introduced.
    pub fn is_named_type(&self) -> (r: bool)
        ensures
            r == (self.kind is NamedType),
    {
        match self.kind {
            TypeKind::NamedType { .. } => true,
            _ => false,
        }
    }
}

impl UnaryOp {
    /// An operator of the given kind, at `span`.
    pub fn new(kind: UnaryOpKind, span: Span) -> (r: UnaryOp)
        ensures
            r.kind == kind,
            r.span == span,
    {
        Self { kind, span }
    }

    /// Whether applying the operator gives an lvalue: true for `*` only.
    pub fn is_lvalue(&self) -> (r: bool)
        ensures
            r == (self.kind == UnaryOpKind::Deref),
    {
        match self.kind {
            UnaryOpKind::AddressOf => false,
            UnaryOpKind::Deref => true,
            UnaryOpKind::Plus => false,
            UnaryOpKind::Minus => false,
            UnaryOpKind::BitNot => false,
            UnaryOpKind::LogicalNot => false,
        }
    }
}

impl BinaryOp {
    /// An operator of the given kind, at `span`.
    pub fn new(kind: BinaryOpKind, span: Span) -> (r: BinaryOp)
        ensures
            r.kind == kind,
            r.span == span,
    {
        Self { kind, span }
    }
}

impl AssignOp {
    /// An operator of the given kind, at `span`.
    pub fn new(kind: AssignOpKind, span: Span) -> (r: AssignOp)
        ensures
            r.kind == kind,
            r.span == span,
    {
        Self { kind, span }
    }
}

/// A statement and the span it covers.
#[derive(Debug)]
pub struct Statement {
    pub kind: StatementKind,
    pub span: Span,
}

/// The kinds of statement.
#[derive(Debug)]
pub enum StatementKind {
    Labeled { label: String, stmt: Box<Statement> },
    Case { value: i64, stmt: Box<Statement> },
    Default { stmt: Box<Statement> },
    Block(Box<Block>),
    Expression(Option<Box<Expression>>),
    If { cond: Box<Expression>, then_stmt: Box<Statement>, else_stmt: Option<Box<Statement>> },
    Switch { cond: Box<Expression>, body: Box<Statement> },
    While { cond: Box<Expression>, body: Box<Statement> },
    DoWhile { body: Box<Statement>, cond: Box<Expression> },
    For {
        init: Option<Box<Expression>>,
        cond: Option<Box<Expression>>,
        step: Option<Box<Expression>>,
        body: Box<Statement>,
    },
    Goto { label: String },
    Continue,
    Break,
    Return(Option<Box<Expression>>),
}

/// An expression, its type once known, and the span it covers.
#[derive(Debug)]
pub struct Expression {
    pub kind: ExpressionKind,
    pub ty: Option<Type>,
    pub span: Span,
}

/// The kinds of expression.
#[derive(Debug)]
pub enum ExpressionKind {
    Literal(Constant),
    Id { name: String, decl_ref: Option<Rc<Symbol>> },
    ArrayAccess { base: Box<Expression>, index: Box<Expression> },
    Call { func: Box<Expression>, args: Vec<Box<Expression>> },
    FieldAccess { base: Box<Expression>, field: String },
    Arrow { base: Box<Expression>, field: String },
    PostInc(Box<Expression>),
    PostDec(Box<Expression>),
    PreInc(Box<Expression>),
    PreDec(Box<Expression>),
    Unary { op: UnaryOp, expr: Box<Expression> },
    SizeofExpr(Box<Expression>),
    SizeofType(Box<Type>),
    Cast { ty: Box<Type>, expr: Box<Expression> },
    Binary { op: BinaryOp, lhs: Box<Expression>, rhs: Box<Expression> },
    Conditional { cond: Box<Expression>, then_expr: Box<Expression>, else_expr: Box<Expression> },
    Assign { lhs: Box<Expression>, op: AssignOp, rhs: Box<Expression> },
    Comma { exprs: Vec<Box<Expression>> },
}

/// A constant and its span.
#[derive(Debug, Clone)]
pub struct Constant {
    pub kind: ConstantKind,
    pub span: Span,
}

/// The kinds of constant; a floating constant is held as the bit pattern
/// of its IEEE-754 double.
#[derive(Debug, Clone)]
pub enum ConstantKind {
    Int(i64),
    Float(u64),
    Char(u8),
    String(String),
}

/// Whether an expression designates an object: a name, an element, a
/// member, a postfix update, a dereference, or a cast of one of these.
/// An assignment or `~x` yields a value and is no lvalue.
pub open spec fn spec_is_lvalue(e: Expression) -> bool
    decreases e,
{
    match e.kind {
        ExpressionKind::Id { .. } => true,
        ExpressionKind::ArrayAccess { .. } => true,
        ExpressionKind::FieldAccess { .. } => true,
        ExpressionKind::Arrow { .. } => true,
        ExpressionKind::PostInc(_) => true,
        ExpressionKind::PostDec(_) => true,
        ExpressionKind::Unary { op, .. } => op.kind == UnaryOpKind::Deref,
        ExpressionKind::Cast { expr, .. } => spec_is_lvalue(*expr),
        ExpressionKind::Assign { .. } => false,
        _ => false,
    }
}

impl Expression {
    /// An expression of the given kind, type and span.
    pub fn new(kind: ExpressionKind, ty: Option<Type>, span: Span) -> (r: Expression)
        ensures
            r.kind == kind,
            r.ty == ty,
            r.span == span,
    {
        Expression { kind, ty, span }
    }

    /// Whether the expression designates an object (see `spec_is_lvalue`).
    pub fn is_lvalue(&self) -> (r: bool)
        ensures
            r == spec_is_lvalue(*self),
        decreases self,
    {
        match &self.kind {
            ExpressionKind::Id { .. } => true,
            ExpressionKind::ArrayAccess { .. } => true,
            ExpressionKind::FieldAccess { .. } => true,
            ExpressionKind::Arrow { .. } => true,
            ExpressionKind::PostInc(_) => true,
            ExpressionKind::PostDec(_) => true,
            ExpressionKind::Unary { op, .. } => op.is_lvalue(),
            ExpressionKind::Cast { expr, .. } => expr.is_lvalue(),
            ExpressionKind::Assign { .. } => false,
            _ => false,
        }
    }

    /// Whether the expression is not an lvalue.
    pub fn is_rvalue(&self) -> (r: bool)
        ensures
            r == !spec_is_lvalue(*self),
    {
        !self.is_lvalue()
    }
}

impl Statement {
    /// A statement of the given kind and span.
    pub fn new(kind: StatementKind, span: Span) -> (r: Statement)
        ensures
            r.kind == kind,
            r.span == span,
    {
        Self { kind, span }
    }
}

/// The length in bytes of the UTF-8 text of `s`, as `str::len` gives it.
pub open spec fn byte_len(s: Seq<char>) -> usize {
    vstd::utf8::encode_utf8(s).len() as usize
}

/// The type of a constant: `int` for a number, `float` for a floating
/// constant, `char` for a character, and an array of `unsigned char` as
/// long as its bytes for a string, each named by the constant's span.
pub open spec fn spec_constant_type(c: Constant) -> Type {
    let span = c.span;
    match c.kind {
        ConstantKind::Int(_) => Type { kind: TypeKind::Integer { signed: true, size: IntegerSize::Int }, span },
        ConstantKind::Float(_) => Type { kind: TypeKind::Floating { size: FloatSize::Float }, span },
        ConstantKind::Char(_) => Type { kind: TypeKind::Integer { signed: true, size: IntegerSize::Char }, span },
        ConstantKind::String(x) => Type {
            kind: TypeKind::Array {
                elem_ty: Box::new(Type { kind: TypeKind::Integer { signed: false, size: IntegerSize::Char }, span }),
                size: Some(byte_len(x@) as u64),
            },
            span,
        },
    }
}

/// The constant a token's value gives, if it gives one: numbers become
/// `Int` (the value read as an `i64`), and floating, string and character
/// values keep theirs.
pub open spec fn spec_constant_kind(value: TokenValue) -> Option<ConstantKind> {
    match value {
        TokenValue::Number { value, .. } => Some(ConstantKind::Int(value as i64)),
        TokenValue::Float(x) => Some(ConstantKind::Float(x)),
        TokenValue::String(x) => Some(ConstantKind::String(x)),
        TokenValue::Char(x) => Some(ConstantKind::Char(x)),
        TokenValue::Other => None,
    }
}

impl Constant {
    /// A constant of the given kind and span.
    pub fn new(kind: ConstantKind, span: Span) -> (r: Constant)
        ensures
            r.kind == kind,
            r.span == span,
    {
        Constant { kind, span }
    }

    /// The type of the constant (see `spec_constant_type`).
    pub fn get_type(&self) -> (r: Type)
        ensures
            r == spec_constant_type(*self),
    {
        let span = self.span;
        let kind = match &self.kind {
            ConstantKind::Int(_) => TypeKind::Integer { signed: true, size: IntegerSize::Int },
            ConstantKind::Float(_) => TypeKind::Floating { size: FloatSize::Float },
            ConstantKind::Char(_) => TypeKind::Integer { signed: true, size: IntegerSize::Char },
            ConstantKind::String(x) => {
                let int_kind = TypeKind::Integer { signed: false, size: IntegerSize::Char };
                let int_ty = Type::new(int_kind, span);
                TypeKind::Array { elem_ty: Box::new(int_ty), size: Some(x.as_str().len() as u64) }
            },
        };
        Type::new(kind, span)
    }

    /// The constant a token gives, at the token's span; a token that
    /// carries nothing gives none.
    pub fn try_from(value: Token) -> (r: Result<Constant, &'static str>)
        ensures
            match spec_constant_kind(value.value) {
                Some(k) => r == Ok::<Constant, &'static str>(Constant { kind: k, span: value.span }),
                None => r is Err,
            },
    {
        let span = value.span;
        match ConstantKind::try_from(value) {
            Ok(kind) => Ok(Constant::new(kind, span)),
            Err(e) => Err(e),
        }
    }
}

impl ConstantKind {
    /// The constant a token's value gives (see `spec_constant_kind`).
    pub fn try_from(value: Token) -> (r: Result<ConstantKind, &'static str>)
        ensures
            match spec_constant_kind(value.value) {
                Some(k) => r == Ok::<ConstantKind, &'static str>(k),
                None => r is Err,
            },
    {
        match value.value {
            TokenValue::Number { value, .. } => Ok(ConstantKind::Int(value as i64)),
            TokenValue::Float(x) => Ok(ConstantKind::Float(x)),
            TokenValue::String(x) => Ok(ConstantKind::String(x)),
            TokenValue::Char(x) => Ok(ConstantKind::Char(x)),
            TokenValue::Other => Err("Failed to convert Token to ConstantKind"),
        }
    }
}

/// The binary operator a token kind stands for, if any.
pub open spec fn binary_kind(kind: TokenKind) -> Option<BinaryOpKind> {
    match kind {
        TokenKind::OpPlus => Some(BinaryOpKind::Add),
        TokenKind::OpMinus => Some(BinaryOpKind::Sub),
        TokenKind::OpTimes => Some(BinaryOpKind::Mul),
        TokenKind::OpDivide => Some(BinaryOpKind::Div),
        TokenKind::OpMod => Some(BinaryOpKind::Mod),
        TokenKind::OpLShift => Some(BinaryOpKind::Shl),
        TokenKind::OpRShift => Some(BinaryOpKind::Shr),
        TokenKind::OpLt => Some(BinaryOpKind::Lt),
        TokenKind::OpGt => Some(BinaryOpKind::Gt),
        TokenKind::OpLe => Some(BinaryOpKind::Le),
        TokenKind::OpGe => Some(BinaryOpKind::Ge),
        TokenKind::OpEq => Some(BinaryOpKind::Eq),
        TokenKind::OpNe => Some(BinaryOpKind::Ne),
        TokenKind::OpBitand => Some(BinaryOpKind::BitAnd),
        TokenKind::OpXor => Some(BinaryOpKind::BitXor),
        TokenKind::OpBitor => Some(BinaryOpKind::BitOr),
        TokenKind::OpAnd => Some(BinaryOpKind::LogicalAnd),
        TokenKind::OpOr => Some(BinaryOpKind::LogicalOr),
        _ => None,
    }
}

/// Each operator token stands for the binary operator of the same name, and
/// every other token kind for none.
pub proof fn lemma_binary_kind_table()
    ensures
        binary_kind(TokenKind::OpPlus) == Some(BinaryOpKind::Add),
        binary_kind(TokenKind::OpMinus) == Some(BinaryOpKind::Sub),
        binary_kind(TokenKind::OpTimes) == Some(BinaryOpKind::Mul),
        binary_kind(TokenKind::OpDivide) == Some(BinaryOpKind::Div),
        binary_kind(TokenKind::OpMod) == Some(BinaryOpKind::Mod),
        binary_kind(TokenKind::OpLShift) == Some(BinaryOpKind::Shl),
        binary_kind(TokenKind::OpRShift) == Some(BinaryOpKind::Shr),
        binary_kind(TokenKind::OpLt) == Some(BinaryOpKind::Lt),
        binary_kind(TokenKind::OpGt) == Some(BinaryOpKind::Gt),
        binary_kind(TokenKind::OpLe) == Some(BinaryOpKind::Le),
        binary_kind(TokenKind::OpGe) == Some(BinaryOpKind::Ge),
        binary_kind(TokenKind::OpEq) == Some(BinaryOpKind::Eq),
        binary_kind(TokenKind::OpNe) == Some(BinaryOpKind::Ne),
        binary_kind(TokenKind::OpBitand) == Some(BinaryOpKind::BitAnd),
        binary_kind(TokenKind::OpXor) == Some(BinaryOpKind::BitXor),
        binary_kind(TokenKind::OpBitor) == Some(BinaryOpKind::BitOr),
        binary_kind(TokenKind::OpAnd) == Some(BinaryOpKind::LogicalAnd),
        binary_kind(TokenKind::OpOr) == Some(BinaryOpKind::LogicalOr),
        forall|k: TokenKind|
            !(k == TokenKind::OpPlus
                || k == TokenKind::OpMinus
                || k == TokenKind::OpTimes
                || k == TokenKind::OpDivide
                || k == TokenKind::OpMod
                || k == TokenKind::OpLShift
                || k == TokenKind::OpRShift
                || k == TokenKind::OpLt
                || k == TokenKind::OpGt
                || k == TokenKind::OpLe
                || k == TokenKind::OpGe
                || k == TokenKind::OpEq
                || k == TokenKind::OpNe
                || k == TokenKind::OpBitand
                || k == TokenKind::OpXor
                || k == TokenKind::OpBitor
                || k == TokenKind::OpAnd
                || k == TokenKind::OpOr
            ) ==> #[trigger] binary_kind(k) is None,
{
}

/// The assignment operator a token kind stands for, if any. (`^=` stands
/// for none.)
pub open spec fn assign_kind(kind: TokenKind) -> Option<AssignOpKind> {
    match kind {
        TokenKind::OpAssign => Some(AssignOpKind::Assign),
        TokenKind::OpMulAssign => Some(AssignOpKind::MulAssign),
        TokenKind::OpDivAssign => Some(AssignOpKind::DivAssign),
        TokenKind::OpModAssign => Some(AssignOpKind::ModAssign),
        TokenKind::OpAddAssign => Some(AssignOpKind::AddAssign),
        TokenKind::OpSubAssign => Some(AssignOpKind::SubAssign),
        TokenKind::OpLShiftAssign => Some(AssignOpKind::ShlAssign),
        TokenKind::OpRShiftAssign => Some(AssignOpKind::ShrAssign),
        TokenKind::OpAndAssign => Some(AssignOpKind::AndAssign),
        TokenKind::OpOrAssign => Some(AssignOpKind::OrAssign),
        _ => None,
    }
}

/// Each assignment token stands for the assignment operator of the same name, and
/// every other token kind for none.
pub proof fn lemma_assign_kind_table()
    ensures
        assign_kind(TokenKind::OpAssign) == Some(AssignOpKind::Assign),
        assign_kind(TokenKind::OpMulAssign) == Some(AssignOpKind::MulAssign),
        assign_kind(TokenKind::OpDivAssign) == Some(AssignOpKind::DivAssign),
        assign_kind(TokenKind::OpModAssign) == Some(AssignOpKind::ModAssign),
        assign_kind(TokenKind::OpAddAssign) == Some(AssignOpKind::AddAssign),
        assign_kind(TokenKind::OpSubAssign) == Some(AssignOpKind::SubAssign),
        assign_kind(TokenKind::OpLShiftAssign) == Some(AssignOpKind::ShlAssign),
        assign_kind(TokenKind::OpRShiftAssign) == Some(AssignOpKind::ShrAssign),
        assign_kind(TokenKind::OpAndAssign) == Some(AssignOpKind::AndAssign),
        assign_kind(TokenKind::OpOrAssign) == Some(AssignOpKind::OrAssign),
        forall|k: TokenKind|
            !(k == TokenKind::OpAssign
                || k == TokenKind::OpMulAssign
                || k == TokenKind::OpDivAssign
                || k == TokenKind::OpModAssign
                || k == TokenKind::OpAddAssign
                || k == TokenKind::OpSubAssign
                || k == TokenKind::OpLShiftAssign
                || k == TokenKind::OpRShiftAssign
                || k == TokenKind::OpAndAssign
                || k == TokenKind::OpOrAssign
            ) ==> #[trigger] assign_kind(k) is None,
{
}

impl BinaryOpKind {
    /// The binary operator a token stands for; an error for any other
    /// token.
    pub fn try_from(value: Token) -> (r: Result<BinaryOpKind, &'static str>)
        ensures
            match binary_kind(value.kind) {
                Some(k) => r == Ok::<BinaryOpKind, &'static str>(k),
                None => r is Err,
            },
    {
        match value.kind {
            TokenKind::OpPlus => Ok(BinaryOpKind::Add),
            TokenKind::OpMinus => Ok(BinaryOpKind::Sub),
            TokenKind::OpTimes => Ok(BinaryOpKind::Mul),
            TokenKind::OpDivide => Ok(BinaryOpKind::Div),
            TokenKind::OpMod => Ok(BinaryOpKind::Mod),
            TokenKind::OpLShift => Ok(BinaryOpKind::Shl),
            TokenKind::OpRShift => Ok(BinaryOpKind::Shr),
            TokenKind::OpLt => Ok(BinaryOpKind::Lt),
            TokenKind::OpGt => Ok(BinaryOpKind::Gt),
            TokenKind::OpLe => Ok(BinaryOpKind::Le),
            TokenKind::OpGe => Ok(BinaryOpKind::Ge),
            TokenKind::OpEq => Ok(BinaryOpKind::Eq),
            TokenKind::OpNe => Ok(BinaryOpKind::Ne),
            TokenKind::OpBitand => Ok(BinaryOpKind::BitAnd),
            TokenKind::OpXor => Ok(BinaryOpKind::BitXor),
            TokenKind::OpBitor => Ok(BinaryOpKind::BitOr),
            TokenKind::OpAnd => Ok(BinaryOpKind::LogicalAnd),
            TokenKind::OpOr => Ok(BinaryOpKind::LogicalOr),
            _ => Err("Failed to convert binary operator"),
        }
    }
}

impl AssignOpKind {
    /// The assignment operator a token stands for; an error for any other
    /// token.
    pub fn try_from(value: Token) -> (r: Result<AssignOpKind, &'static str>)
        ensures
            match assign_kind(value.kind) {
                Some(k) => r == Ok::<AssignOpKind, &'static str>(k),
                None => r is Err,
            },
    {
        match value.kind {
            TokenKind::OpAssign => Ok(AssignOpKind::Assign),
            TokenKind::OpMulAssign => Ok(AssignOpKind::MulAssign),
            TokenKind::OpDivAssign => Ok(AssignOpKind::DivAssign),
            TokenKind::OpModAssign => Ok(AssignOpKind::ModAssign),
            TokenKind::OpAddAssign => Ok(AssignOpKind::AddAssign),
            TokenKind::OpSubAssign => Ok(AssignOpKind::SubAssign),
            TokenKind::OpLShiftAssign => Ok(AssignOpKind::ShlAssign),
            TokenKind::OpRShiftAssign => Ok(AssignOpKind::ShrAssign),
            TokenKind::OpAndAssign => Ok(AssignOpKind::AndAssign),
            TokenKind::OpOrAssign => Ok(AssignOpKind::OrAssign),
            _ => Err("Failed to convert assignment operator"),
        }
    }
}

} // verus!
