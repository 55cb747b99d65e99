//! The concrete syntax tree: one node type per grammar rule, and the
//! semantic value the parser keeps beside each state, which holds any one
//! of them. Each `make_*` function is the action of a grammar rule: it
//! takes the values of the rule's symbols and builds the rule's node.
use crate::types::token::Token;
use vstd::prelude::*;

verus! {

/// The semantic value of a grammar symbol: a node of the kind the symbol
/// stands for, a token, or nothing.
#[derive(Debug, Default)]
pub enum SemanticValue {
    TranslationUnit(TranslationUnit),
    ExternalDeclaration(ExternalDeclaration),
    FunctionDefinition(FunctionDefinition),
    DeclarationListOpt(Option<DeclarationList>),
    DeclarationList(DeclarationList),
    Declaration(Declaration),
    InitDeclaratorListOpt(Option<InitDeclaratorList>),
    InitDeclaratorList(InitDeclaratorList),
    InitDeclarator(InitDeclarator),
    DeclarationSpecifiers(DeclarationSpecifiers),
    DeclarationSpecifiersOpt(Option<DeclarationSpecifiers>),
    StorageClassSpecifier(StorageClassSpecifier),
    TypeSpecifier(TypeSpecifier),
    TypeQualifier(TypeQualifier),
    StructOrUnionSpecifier(StructOrUnionSpecifier),
    StructOrUnion(StructOrUnion),
    IdentifierOpt(IdentifierOpt),
    StructDeclarationList(Vec<StructDeclaration>),
    StructDeclaration(StructDeclaration),
    SpecifierQualifierList(SpecifierQualifierList),
    SpecifierQualifierListOpt(Option<SpecifierQualifierList>),
    StructDeclaratorList(Vec<StructDeclarator>),
    StructDeclarator(StructDeclarator),
    EnumSpecifier(EnumSpecifier),
    EnumeratorList(Vec<Enumerator>),
    Enumerator(Enumerator),
    Declarator(Declarator),
    PointerOpt(Option<Pointer>),
    Pointer(Pointer),
    TypeQualifierList(Vec<TypeQualifier>),
    DirectDeclarator(DirectDeclarator),
    ConstantExpressionOpt(Option<ConstantExpression>),
    IdentifierListOpt(Option<IdentifierList>),
    IdentifierList(IdentifierList),
    ParameterTypeList(ParameterTypeList),
    ParameterList(Vec<ParameterDeclaration>),
    ParameterDeclaration(ParameterDeclaration),
    AbstractDeclaratorOpt(Option<AbstractDeclarator>),
    AbstractDeclarator(AbstractDeclarator),
    DirectAbstractDeclarator(DirectAbstractDeclarator),
    ParameterTypeListOpt(Option<ParameterTypeList>),
    Initializer(Initializer),
    InitializerList(InitializerList),
    Statement(Statement),
    LabeledStatement(LabeledStatement),
    CompoundStatement(CompoundStatement),
    BlockItemList(Vec<BlockItem>),
    BlockItem(BlockItem),
    ExpressionStatement(ExpressionStatement),
    SelectionStatement(SelectionStatement),
    IterationStatement(IterationStatement),
    ExpressionOpt(Option<Expression>),
    JumpStatement(JumpStatement),
    PrimaryExpression(PrimaryExpression),
    Constant(Constant),
    String(Vec<Token>),
    PostfixExpression(PostfixExpression),
    ArgumentExpressionListOpt(Option<ArgumentExpressionList>),
    ArgumentExpressionList(ArgumentExpressionList),
    UnaryExpression(UnaryExpression),
    UnaryOperator(UnaryOperator),
    CastExpression(CastExpression),
    MultiplicativeExpression(MultiplicativeExpression),
    AdditiveExpression(AdditiveExpression),
    ShiftExpression(ShiftExpression),
    RelationalExpression(RelationalExpression),
    EqualityExpression(EqualityExpression),
    AndExpression(AndExpression),
    ExclusiveOrExpression(ExclusiveOrExpression),
    InclusiveOrExpression(InclusiveOrExpression),
    LogicalAndExpression(LogicalAndExpression),
    LogicalOrExpression(LogicalOrExpression),
    ConditionalExpression(ConditionalExpression),
    AssignmentExpression(AssignmentExpression),
    AssignmentOperator(AssignmentOperator),
    Expression(Expression),
    ConstantExpression(ConstantExpression),
    TypeName(TypeName),
    Token(Token),
    #[default]
    Empty,
}

/// A translation unit: its external declarations, the last outermost.
#[derive(Debug)]
pub enum TranslationUnit {
    Single(Box<ExternalDeclaration>),
    Multi(Box<TranslationUnit>, Box<ExternalDeclaration>),
}

/// A function definition or a declaration.
#[derive(Debug)]
pub enum ExternalDeclaration {
    FunctionDefinition(FunctionDefinition),
    Declaration(Declaration),
}

/// A function definition, with or without declaration specifiers, with
/// its old-style parameter declarations if any.
#[derive(Debug)]
pub enum FunctionDefinition {
    WithSpecifiers {
        declaration_specifiers: DeclarationSpecifiers,
        declarator: Declarator,
        declaration_list: Option<DeclarationList>,
        body: CompoundStatement,
    },
    WithoutSpecifiers { declarator: Declarator, declaration_list: Option<DeclarationList>, body: CompoundStatement },
}

/// A list of declarations.
#[derive(Debug)]
pub struct DeclarationList(pub Vec<Declaration>);

/// A declaration: its specifiers and its declarators, if any.
#[derive(Debug)]
pub struct Declaration {
    pub specifiers: DeclarationSpecifiers,
    pub init_declarators: Option<InitDeclaratorList>,
}

/// A list of declarators with their initializers.
#[derive(Debug)]
pub struct InitDeclaratorList(pub Vec<InitDeclarator>);

/// A declarator, with or without an initializer.
#[derive(Debug)]
pub enum InitDeclarator {
    Plain(Declarator),
    Initialized(Declarator, Initializer),
}

/// Declaration specifiers: one specifier, then the rest of them.
#[derive(Debug)]
pub enum DeclarationSpecifiers {
    StorageClass(StorageClassSpecifier, Option<Box<DeclarationSpecifiers>>),
    TypeSpecifier(TypeSpecifier, Option<Box<DeclarationSpecifiers>>),
    TypeQualifier(TypeQualifier, Option<Box<DeclarationSpecifiers>>),
}

/// A storage-class keyword.
#[derive(Debug)]
pub enum StorageClassSpecifier {
    Typedef(Token),
    Extern(Token),
    Static(Token),
    Auto(Token),
    Register(Token),
}

/// A type specifier; a type name is a typedef name the lexer resolved.
#[derive(Debug)]
pub enum TypeSpecifier {
    Void(Token),
    Char(Token),
    Short(Token),
    Int(Token),
    Long(Token),
    Signed(Token),
    Unsigned(Token),
    Float(Token),
    Double(Token),
    StructOrUnion(StructOrUnionSpecifier),
    Enum(EnumSpecifier),
    TypeName(Token),
}

/// A type qualifier keyword.
#[derive(Debug)]
pub enum TypeQualifier {
    Const(Token),
    Volatile(Token),
}

/// A struct or union specifier: a definition or a reference by tag.
#[derive(Debug)]
pub enum StructOrUnionSpecifier {
    Defined { kind: StructOrUnion, name: IdentifierOpt, fields: Vec<StructDeclaration> },
    Named { kind: StructOrUnion, name: Token },
}

/// The `struct` or `union` keyword.
#[derive(Debug)]
pub enum StructOrUnion {
    Struct(Token),
    Union(Token),
}

/// An optional identifier.
pub type IdentifierOpt = Option<Token>;

/// A member declaration: its specifiers and qualifiers and declarators.
#[derive(Debug)]
pub struct StructDeclaration {
    pub specifiers: SpecifierQualifierList,
    pub declarators: Vec<StructDeclarator>,
}

/// A member declarator, or a bit-field with an optional declarator.
#[derive(Debug)]
pub enum StructDeclarator {
    Declarator(Declarator),
    Bitfield(Option<Declarator>, ConstantExpression),
}

/// An enum specifier: a definition or a reference by tag.
#[derive(Debug)]
pub enum EnumSpecifier {
    Defined { name: IdentifierOpt, enumerators: Vec<Enumerator> },
    Named(Token),
}

/// An enumerator, with or without a value.
#[derive(Debug)]
pub enum Enumerator {
    Plain(Token),
    WithValue(Token, ConstantExpression),
}

/// A declarator: its pointer, if any, and its direct declarator.
#[derive(Debug)]
pub struct Declarator {
    pub pointer: Option<Pointer>,
    pub direct: DirectDeclarator,
}

/// A `*` with its qualifiers, and the pointer after it, if any.
#[derive(Debug)]
pub enum Pointer {
    Single(Vec<TypeQualifier>, Option<Box<Pointer>>),
}

/// A direct declarator: the name, a declarator in parentheses, an array,
/// or a function with prototype or with bare parameter names.
#[derive(Debug)]
pub enum DirectDeclarator {
    Id(Token),
    Paren(Box<Declarator>),
    Array(Box<DirectDeclarator>, Option<ConstantExpression>),
    FuncParams(Box<DirectDeclarator>, ParameterTypeList),
    FuncIdentifiers(Box<DirectDeclarator>, Option<IdentifierList>),
}

/// A statement.
#[derive(Debug)]
pub enum Statement {
    Labeled(LabeledStatement),
    Compound(CompoundStatement),
    Expression(ExpressionStatement),
    Selection(SelectionStatement),
    Iteration(IterationStatement),
    Jump(JumpStatement),
}

/// A statement after a label, a `case` or `default`.
#[derive(Debug)]
pub enum LabeledStatement {
    Label(Token, Box<Statement>),
    Case(ConstantExpression, Box<Statement>),
    Default(Box<Statement>),
}

/// A compound statement: empty braces, or a list of block items.
#[derive(Debug)]
pub enum CompoundStatement {
    Empty(Token),
    Block(Vec<BlockItem>),
}

/// An item of a block.
#[derive(Debug)]
pub enum BlockItem {
    Declaration(Declaration),
    Statement(Statement),
}

/// An expression statement, or a lone `;`.
#[derive(Debug)]
pub enum ExpressionStatement {
    Empty(Token),
    Expr(Expression),
}

/// `if` and `switch`.
#[derive(Debug)]
pub enum SelectionStatement {
    If { cond: Expression, then_stmt: Box<Statement>, else_stmt: Option<Box<Statement>> },
    Switch { cond: Expression, body: Box<Statement> },
}

/// `while`, `do ... while` and `for`.
#[derive(Debug)]
pub enum IterationStatement {
    While { cond: Expression, body: Box<Statement> },
    DoWhile { body: Box<Statement>, cond: Expression },
    For { init: Option<Expression>, cond: Option<Expression>, step: Option<Expression>, body: Box<Statement> },
}

/// `goto`, `continue`, `break` and `return`.
#[derive(Debug)]
pub enum JumpStatement {
    Goto(Token),
    Continue(Token),
    Break(Token),
    Return(Option<Expression>),
}

/// A primary expression; adjacent string literals are kept together.
#[derive(Debug)]
pub enum PrimaryExpression {
    Id(Token),
    Constant(Constant),
    StringLiteral(Vec<Token>),
    Paren(Box<Expression>),
}

/// A constant token.
#[derive(Debug)]
pub enum Constant {
    Int(Token),
    Float(Token),
    Char(Token),
}

/// A postfix expression.
#[derive(Debug)]
pub enum PostfixExpression {
    Primary(PrimaryExpression),
    Array(Box<PostfixExpression>, Box<Expression>),
    Call(Box<PostfixExpression>, Option<ArgumentExpressionList>),
    Field(Box<PostfixExpression>, Token),
    Arrow(Box<PostfixExpression>, Token),
    Inc(Box<PostfixExpression>),
    Dec(Box<PostfixExpression>),
}

/// The arguments of a call.
pub type ArgumentExpressionList = Vec<AssignmentExpression>;

/// A unary expression.
#[derive(Debug)]
pub enum UnaryExpression {
    Postfix(PostfixExpression),
    PreInc(Box<UnaryExpression>),
    PreDec(Box<UnaryExpression>),
    UnaryOp(UnaryOperator, Box<CastExpression>),
    SizeofExpr(Box<UnaryExpression>),
    SizeofType(Box<TypeName>),
}

/// A unary operator token.
#[derive(Debug)]
pub enum UnaryOperator {
    AddressOf(Token),
    Deref(Token),
    Plus(Token),
    Minus(Token),
    BitNot(Token),
    Not(Token),
}

/// A cast, or a unary expression.
#[derive(Debug)]
pub enum CastExpression {
    Cast(Box<TypeName>, Box<CastExpression>),
    Unary(UnaryExpression),
}

/// `*`, `/` and `%`.
#[derive(Debug)]
pub enum MultiplicativeExpression {
    Mul(Box<MultiplicativeExpression>, CastExpression),
    Div(Box<MultiplicativeExpression>, CastExpression),
    Mod(Box<MultiplicativeExpression>, CastExpression),
    Cast(CastExpression),
}

/// `+` and `-`.
#[derive(Debug)]
pub enum AdditiveExpression {
    Add(Box<AdditiveExpression>, MultiplicativeExpression),
    Sub(Box<AdditiveExpression>, MultiplicativeExpression),
    Mul(MultiplicativeExpression),
}

/// `<<` and `>>`.
#[derive(Debug)]
pub enum ShiftExpression {
    Shl(Box<ShiftExpression>, AdditiveExpression),
    Shr(Box<ShiftExpression>, AdditiveExpression),
    Add(AdditiveExpression),
}

/// `<`, `>`, `<=` and `>=`.
#[derive(Debug)]
pub enum RelationalExpression {
    Lt(Box<RelationalExpression>, ShiftExpression),
    Gt(Box<RelationalExpression>, ShiftExpression),
    Le(Box<RelationalExpression>, ShiftExpression),
    Ge(Box<RelationalExpression>, ShiftExpression),
    Shift(ShiftExpression),
}

/// `==` and `!=`.
#[derive(Debug)]
pub enum EqualityExpression {
    Eq(Box<EqualityExpression>, RelationalExpression),
    Ne(Box<EqualityExpression>, RelationalExpression),
    Rel(RelationalExpression),
}

/// Bitwise `&`.
#[derive(Debug)]
pub enum AndExpression {
    And(Box<AndExpression>, EqualityExpression),
    Eq(EqualityExpression),
}

/// Bitwise `^`.
#[derive(Debug)]
pub enum ExclusiveOrExpression {
    Xor(Box<ExclusiveOrExpression>, AndExpression),
    And(AndExpression),
}

/// Bitwise `|`.
#[derive(Debug)]
pub enum InclusiveOrExpression {
    Or(Box<InclusiveOrExpression>, ExclusiveOrExpression),
    Xor(ExclusiveOrExpression),
}

/// `&&`.
#[derive(Debug)]
pub enum LogicalAndExpression {
    And(Box<LogicalAndExpression>, InclusiveOrExpression),
    Or(InclusiveOrExpression),
}

/// `||`.
#[derive(Debug)]
pub enum LogicalOrExpression {
    Or(Box<LogicalOrExpression>, LogicalAndExpression),
    And(LogicalAndExpression),
}

/// `? :`.
#[derive(Debug)]
pub enum ConditionalExpression {
    Cond { cond: LogicalOrExpression, then_expr: Box<Expression>, else_expr: Box<ConditionalExpression> },
    Or(LogicalOrExpression),
}

/// An assignment, or a conditional expression.
#[derive(Debug)]
pub enum AssignmentExpression {
    Conditional(ConditionalExpression),
    Assign { lhs: UnaryExpression, op: AssignmentOperator, rhs: Box<AssignmentExpression> },
}

/// An assignment operator token.
#[derive(Debug)]
pub enum AssignmentOperator {
    Assign(Token),
    MulAssign(Token),
    DivAssign(Token),
    ModAssign(Token),
    AddAssign(Token),
    SubAssign(Token),
    ShlAssign(Token),
    ShrAssign(Token),
    AndAssign(Token),
    XorAssign(Token),
    OrAssign(Token),
}

/// An expression: one assignment, or a comma expression.
#[derive(Debug)]
pub enum Expression {
    Single(AssignmentExpression),
    Comma(Box<Expression>, AssignmentExpression),
}

/// A constant expression.
#[derive(Debug)]
pub struct ConstantExpression(pub ConditionalExpression);

/// A type name: specifiers and qualifiers, and an abstract declarator.
#[derive(Debug)]
pub struct TypeName {
    pub specifiers: SpecifierQualifierList,
    pub abstract_declarator: Option<AbstractDeclarator>,
}

/// An initializer: an expression or a braced list.
#[derive(Debug)]
pub enum Initializer {
    Assignment(AssignmentExpression),
    List(InitializerList),
}

/// The initializers of a braced list.
#[derive(Debug)]
pub struct InitializerList(pub Vec<Initializer>);

/// An abstract declarator: a pointer, or a direct abstract declarator
/// with its pointer, if any.
#[derive(Debug)]
pub enum AbstractDeclarator {
    Pointer(Pointer),
    Direct { pointer: Option<Pointer>, direct: DirectAbstractDeclarator },
}

/// A direct abstract declarator.
#[derive(Debug)]
pub enum DirectAbstractDeclarator {
    Paren(Box<AbstractDeclarator>),
    Array(Option<ConstantExpression>),
    ArrayNested(Box<DirectAbstractDeclarator>, Option<ConstantExpression>),
    Func(Option<ParameterTypeList>),
    FuncNested(Box<DirectAbstractDeclarator>, Option<ParameterTypeList>),
}

/// A prototype's parameters, ending in `...` or not.
#[derive(Debug)]
pub enum ParameterTypeList {
    Params(Vec<ParameterDeclaration>),
    Variadic(Vec<ParameterDeclaration>),
}

/// A parameter declaration, with a declarator or an abstract one.
#[derive(Debug)]
pub enum ParameterDeclaration {
    WithDeclarator { specifiers: DeclarationSpecifiers, declarator: Declarator },
    Abstract { specifiers: DeclarationSpecifiers, abstract_declarator: Option<AbstractDeclarator> },
}

/// Type specifiers and qualifiers: one, then the rest of them.
#[derive(Debug)]
pub enum SpecifierQualifierList {
    TypeSpecifier(TypeSpecifier, Option<Box<SpecifierQualifierList>>),
    TypeQualifier(TypeQualifier, Option<Box<SpecifierQualifierList>>),
}

/// A list of identifiers.
#[derive(Debug)]
pub struct IdentifierList(pub Vec<Token>);

/// Appends `item` to `list` and gives the list back.
pub fn list_push<T>(list: Vec<T>, item: T) -> (r: Vec<T>)
    ensures
        r@ == list@.push(item),
{
    let mut list = list;
    list.push(item);
    list
}

impl TranslationUnit {
    /// A unit of one external declaration.
    pub fn make_single(external: SemanticValue) -> (r: SemanticValue)
        requires
            external is ExternalDeclaration,
        ensures
            r == (SemanticValue::TranslationUnit(TranslationUnit::Single(Box::new(external->ExternalDeclaration_0)))),
    {
        let external = match external {
            SemanticValue::ExternalDeclaration(x) => x,
            _ => {
                return SemanticValue::Empty;
            },
        };
        let external = Box::new(external);
        SemanticValue::TranslationUnit(TranslationUnit::Single(external))
    }

    /// A unit followed by one more external declaration.
    pub fn make_multi(trans: SemanticValue, external: SemanticValue) -> (r: SemanticValue)
        requires
            trans is TranslationUnit,
            external is ExternalDeclaration,
        ensures
            r == (SemanticValue::TranslationUnit(TranslationUnit::Multi(Box::new(trans->TranslationUnit_0), Box::new(external->ExternalDeclaration_0)))),
    {
        let trans = match trans {
            SemanticValue::TranslationUnit(x) => x,
            _ => {
                return SemanticValue::Empty;
            },
        };
        let trans = Box::new(trans);
        let external = match external {
            SemanticValue::ExternalDeclaration(x) => x,
            _ => {
                return SemanticValue::Empty;
            },
        };
        let external = Box::new(external);
        SemanticValue::TranslationUnit(TranslationUnit::Multi(trans, external))
    }
}

impl ExternalDeclaration {
    /// A function definition as an external declaration.
    pub fn make_function_definition(item: SemanticValue) -> (r: SemanticValue)
        requires
            item is FunctionDefinition,
        ensures
            r == (SemanticValue::ExternalDeclaration(ExternalDeclaration::FunctionDefinition(item->FunctionDefinition_0))),
    {
        let item = match item {
            SemanticValue::FunctionDefinition(x) => x,
            _ => {
                return SemanticValue::Empty;
            },
        };
        SemanticValue::ExternalDeclaration(ExternalDeclaration::FunctionDefinition(item))
    }

    /// A declaration as an external declaration.
    pub fn make_declaration(item: SemanticValue) -> (r: SemanticValue)
        requires
            item is Declaration,
        ensures
            r == (SemanticValue::ExternalDeclaration(ExternalDeclaration::Declaration(item->Declaration_0))),
    {
        let item = match item {
            SemanticValue::Declaration(x) => x,
            _ => {
                return SemanticValue::Empty;
            },
        };
        SemanticValue::ExternalDeclaration(ExternalDeclaration::Declaration(item))
    }
}

impl FunctionDefinition {
    /// A function definition with declaration specifiers.
    pub fn make_with_specifiers(decl_spec: SemanticValue, decl: SemanticValue, decl_list_opt: SemanticValue, body: SemanticValue) -> (r: SemanticValue)
        requires
            decl_spec is DeclarationSpecifiers,
            decl is Declarator,
            decl_list_opt is DeclarationListOpt,
            body is CompoundStatement,
        ensures
            r == (SemanticValue::FunctionDefinition(FunctionDefinition::WithSpecifiers { declaration_specifiers: decl_spec->DeclarationSpecifiers_0, declarator: decl->Declarator_0, declaration_list: decl_list_opt->DeclarationListOpt_0, body: body->CompoundStatement_0 })),
    {
        let decl_spec = match decl_spec {
            SemanticValue::DeclarationSpecifiers(x) => x,
            _ => {
                return SemanticValue::Empty;
            },
        };
        let decl = match decl {
            SemanticValue::Declarator(x) => x,
            _ => {
                return SemanticValue::Empty;
            },
        };
        let decl_list_opt = match decl_list_opt {
            SemanticValue::DeclarationListOpt(x) => x,
            _ => {
                return SemanticValue::Empty;
            },
        };
        let body = match body {
            SemanticValue::CompoundStatement(x) => x,
            _ => {
                return SemanticValue::Empty;
            },
        };
        SemanticValue::FunctionDefinition(FunctionDefinition::WithSpecifiers { declaration_specifiers: decl_spec, declarator: decl, declaration_list: decl_list_opt, body: body })
    }

    /// A function definition without declaration specifiers.
    pub fn make_without_specifiers(decl: SemanticValue, decl_list_opt: SemanticValue, body: SemanticValue) -> (r: SemanticValue)
        requires
            decl is Declarator,
            decl_list_opt is DeclarationListOpt,
            body is CompoundStatement,
        ensures
            r == (SemanticValue::FunctionDefinition(FunctionDefinition::WithoutSpecifiers { declarator: decl->Declarator_0, declaration_list: decl_list_opt->DeclarationListOpt_0, body: body->CompoundStatement_0 })),
    {
        let decl = match decl {
            SemanticValue::Declarator(x) => x,
            _ => {
                return SemanticValue::Empty;
            },
        };
        let decl_list_opt = match decl_list_opt {
            SemanticValue::DeclarationListOpt(x) => x,
            _ => {
                return SemanticValue::Empty;
            },
        };
        let body = match body {
            SemanticValue::CompoundStatement(x) => x,
            _ => {
                return SemanticValue::Empty;
            },
        };
        SemanticValue::FunctionDefinition(FunctionDefinition::WithoutSpecifiers { declarator: decl, declaration_list: decl_list_opt, body: body })
    }
}

impl Declaration {
    /// A declaration from its specifiers and declarators.
    pub fn make_declaration(spec: SemanticValue, init_decl: SemanticValue) -> (r: SemanticValue)
        requires
            spec is DeclarationSpecifiers,
            init_decl is InitDeclaratorListOpt,
        ensures
            r == (SemanticValue::Declaration(Declaration { specifiers: spec->DeclarationSpecifiers_0, init_declarators: init_decl->InitDeclaratorListOpt_0 })),
    {
        let spec = match spec {
            SemanticValue::DeclarationSpecifiers(x) => x,
            _ => {
                return SemanticValue::Empty;
            },
        };
        let init_decl = match init_decl {
            SemanticValue::InitDeclaratorListOpt(x) => x,
            _ => {
                return SemanticValue::Empty;
            },
        };
        SemanticValue::Declaration(Declaration { specifiers: spec, init_declarators: init_decl })
    }
}

impl InitDeclarator {
    /// A declarator without initializer.
    pub fn make_plain(item: SemanticValue) -> (r: SemanticValue)
        requires
            item is Declarator,
        ensures
            r == (SemanticValue::InitDeclarator(InitDeclarator::Plain(item->Declarator_0))),
    {
        let item = match item {
            SemanticValue::Declarator(x) => x,
            _ => {
                return SemanticValue::Empty;
            },
        };
        SemanticValue::InitDeclarator(InitDeclarator::Plain(item))
    }

    /// A declarator with its initializer.
    pub fn make_initialized(item: SemanticValue, item2: SemanticValue) -> (r: SemanticValue)
        requires
            item is Declarator,
            item2 is Initializer,
        ensures
            r == (SemanticValue::InitDeclarator(InitDeclarator::Initialized(item->Declarator_0, item2->Initializer_0))),
    {
        let item = match item {
            SemanticValue::Declarator(x) => x,
            _ => {
                return SemanticValue::Empty;
            },
        };
        let item2 = match item2 {
            SemanticValue::Initializer(x) => x,
            _ => {
                return SemanticValue::Empty;
            },
        };
        SemanticValue::InitDeclarator(InitDeclarator::Initialized(item, item2))
    }
}

impl DeclarationSpecifiers {
    /// A storage class before the rest of the specifiers, if any.
    pub fn make_storage_class(item: SemanticValue, decl_spec_opt: SemanticValue) -> (r: SemanticValue)
        requires
            item is StorageClassSpecifier,
            decl_spec_opt is DeclarationSpecifiersOpt,
        ensures
            r == (SemanticValue::DeclarationSpecifiers(DeclarationSpecifiers::StorageClass(item->StorageClassSpecifier_0, (match decl_spec_opt->DeclarationSpecifiersOpt_0 { Some(x) => Some(Box::new(x)), None => None })))),
    {
        let item = match item {
            SemanticValue::StorageClassSpecifier(x) => x,
            _ => {
                return SemanticValue::Empty;
            },
        };
        let decl_spec_opt = match decl_spec_opt {
            SemanticValue::DeclarationSpecifiersOpt(x) => x,
            _ => {
                return SemanticValue::Empty;
            },
        };
        let decl_spec_opt = match decl_spec_opt {
            Some(x) => Some(Box::new(x)),
            None => None,
        };
        SemanticValue::DeclarationSpecifiers(DeclarationSpecifiers::StorageClass(item, decl_spec_opt))
    }

    /// A type specifier before the rest of the specifiers, if any.
    pub fn make_type_specifier(item: SemanticValue, decl_spec_opt: SemanticValue) -> (r: SemanticValue)
        requires
            item is TypeSpecifier,
            decl_spec_opt is DeclarationSpecifiersOpt,
        ensures
            r == (SemanticValue::DeclarationSpecifiers(DeclarationSpecifiers::TypeSpecifier(item->TypeSpecifier_0, (match decl_spec_opt->DeclarationSpecifiersOpt_0 { Some(x) => Some(Box::new(x)), None => None })))),
    {
        let item = match item {
            SemanticValue::TypeSpecifier(x) => x,
            _ => {
                return SemanticValue::Empty;
            },
        };
        let decl_spec_opt = match decl_spec_opt {
            SemanticValue::DeclarationSpecifiersOpt(x) => x,
            _ => {
                return SemanticValue::Empty;
            },
        };
        let decl_spec_opt = match decl_spec_opt {
            Some(x) => Some(Box::new(x)),
            None => None,
        };
        SemanticValue::DeclarationSpecifiers(DeclarationSpecifiers::TypeSpecifier(item, decl_spec_opt))
    }

    /// A type qualifier before the rest of the specifiers, if any.
    pub fn make_type_qualifier(item: SemanticValue, decl_spec_opt: SemanticValue) -> (r: SemanticValue)
        requires
            item is TypeQualifier,
            decl_spec_opt is DeclarationSpecifiersOpt,
        ensures
            r == (SemanticValue::DeclarationSpecifiers(DeclarationSpecifiers::TypeQualifier(item->TypeQualifier_0, (match decl_spec_opt->DeclarationSpecifiersOpt_0 { Some(x) => Some(Box::new(x)), None => None })))),
    {
        let item = match item {
            SemanticValue::TypeQualifier(x) => x,
            _ => {
                return SemanticValue::Empty;
            },
        };
        let decl_spec_opt = match decl_spec_opt {
            SemanticValue::DeclarationSpecifiersOpt(x) => x,
            _ => {
                return SemanticValue::Empty;
            },
        };
        let decl_spec_opt = match decl_spec_opt {
            Some(x) => Some(Box::new(x)),
            None => None,
        };
        SemanticValue::DeclarationSpecifiers(DeclarationSpecifiers::TypeQualifier(item, decl_spec_opt))
    }
}

impl StorageClassSpecifier {
    /// The `typedef` keyword.
    pub fn make_typedef(item: SemanticValue) -> (r: SemanticValue)
        requires
            item is Token,
        ensures
            r == (SemanticValue::StorageClassSpecifier(StorageClassSpecifier::Typedef(item->Token_0))),
    {
        let item = match item {
            SemanticValue::Token(x) => x,
            _ => {
                return SemanticValue::Empty;
            },
        };
        SemanticValue::StorageClassSpecifier(StorageClassSpecifier::Typedef(item))
    }

    /// The `extern` keyword.
    pub fn make_extern(item: SemanticValue) -> (r: SemanticValue)
        requires
            item is Token,
        ensures
            r == (SemanticValue::StorageClassSpecifier(StorageClassSpecifier::Extern(item->Token_0))),
    {
        let item = match item {
            SemanticValue::Token(x) => x,
            _ => {
                return SemanticValue::Empty;
            },
        };
        SemanticValue::StorageClassSpecifier(StorageClassSpecifier::Extern(item))
    }

    /// The `static` keyword.
    pub fn make_static(item: SemanticValue) -> (r: SemanticValue)
        requires
            item is Token,
        ensures
            r == (SemanticValue::StorageClassSpecifier(StorageClassSpecifier::Static(item->Token_0))),
    {
        let item = match item {
            SemanticValue::Token(x) => x,
            _ => {
                return SemanticValue::Empty;
            },
        };
        SemanticValue::StorageClassSpecifier(StorageClassSpecifier::Static(item))
    }

    /// The `auto` keyword.
    pub fn make_auto(item: SemanticValue) -> (r: SemanticValue)
        requires
            item is Token,
        ensures
            r == (SemanticValue::StorageClassSpecifier(StorageClassSpecifier::Auto(item->Token_0))),
    {
        let item = match item {
            SemanticValue::Token(x) => x,
            _ => {
                return SemanticValue::Empty;
            },
        };
        SemanticValue::StorageClassSpecifier(StorageClassSpecifier::Auto(item))
    }

    /// The `register` keyword.
    pub fn make_register(item: SemanticValue) -> (r: SemanticValue)
        requires
            item is Token,
        ensures
            r == (SemanticValue::StorageClassSpecifier(StorageClassSpecifier::Register(item->Token_0))),
    {
        let item = match item {
            SemanticValue::Token(x) => x,
            _ => {
                return SemanticValue::Empty;
            },
        };
        SemanticValue::StorageClassSpecifier(StorageClassSpecifier::Register(item))
    }
}

impl TypeSpecifier {
    /// The `void` keyword.
    pub fn make_void(item: SemanticValue) -> (r: SemanticValue)
        requires
            item is Token,
        ensures
            r == (SemanticValue::TypeSpecifier(TypeSpecifier::Void(item->Token_0))),
    {
        let item = match item {
            SemanticValue::Token(x) => x,
            _ => {
                return SemanticValue::Empty;
            },
        };
        SemanticValue::TypeSpecifier(TypeSpecifier::Void(item))
    }

    /// The `char` keyword.
    pub fn make_char(item: SemanticValue) -> (r: SemanticValue)
        requires
            item is Token,
        ensures
            r == (SemanticValue::TypeSpecifier(TypeSpecifier::Char(item->Token_0))),
    {
        let item = match item {
            SemanticValue::Token(x) => x,
            _ => {
                return SemanticValue::Empty;
            },
        };
        SemanticValue::TypeSpecifier(TypeSpecifier::Char(item))
    }

    /// The `short` keyword.
    pub fn make_short(item: SemanticValue) -> (r: SemanticValue)
        requires
            item is Token,
        ensures
            r == (SemanticValue::TypeSpecifier(TypeSpecifier::Short(item->Token_0))),
    {
        let item = match item {
            SemanticValue::Token(x) => x,
            _ => {
                return SemanticValue::Empty;
            },
        };
        SemanticValue::TypeSpecifier(TypeSpecifier::Short(item))
    }

    /// The `int` keyword.
    pub fn make_int(item: SemanticValue) -> (r: SemanticValue)
        requires
            item is Token,
        ensures
            r == (SemanticValue::TypeSpecifier(TypeSpecifier::Int(item->Token_0))),
    {
        let item = match item {
            SemanticValue::Token(x) => x,
            _ => {
                return SemanticValue::Empty;
            },
        };
        SemanticValue::TypeSpecifier(TypeSpecifier::Int(item))
    }

    /// The `long` keyword.
    pub fn make_long(item: SemanticValue) -> (r: SemanticValue)
        requires
            item is Token,
        ensures
            r == (SemanticValue::TypeSpecifier(TypeSpecifier::Long(item->Token_0))),
    {
        let item = match item {
            SemanticValue::Token(x) => x,
            _ => {
                return SemanticValue::Empty;
            },
        };
        SemanticValue::TypeSpecifier(TypeSpecifier::Long(item))
    }

    /// The `signed` keyword.
    pub fn make_signed(item: SemanticValue) -> (r: SemanticValue)
        requires
            item is Token,
        ensures
            r == (SemanticValue::TypeSpecifier(TypeSpecifier::Signed(item->Token_0))),
    {
        let item = match item {
            SemanticValue::Token(x) => x,
            _ => {
                return SemanticValue::Empty;
            },
        };
        SemanticValue::TypeSpecifier(TypeSpecifier::Signed(item))
    }

    /// The `unsigned` keyword.
    pub fn make_unsigned(item: SemanticValue) -> (r: SemanticValue)
        requires
            item is Token,
        ensures
            r == (SemanticValue::TypeSpecifier(TypeSpecifier::Unsigned(item->Token_0))),
    {
        let item = match item {
            SemanticValue::Token(x) => x,
            _ => {
                return SemanticValue::Empty;
            },
        };
        SemanticValue::TypeSpecifier(TypeSpecifier::Unsigned(item))
    }

    /// The `float` keyword.
    pub fn make_float(item: SemanticValue) -> (r: SemanticValue)
        requires
            item is Token,
        ensures
            r == (SemanticValue::TypeSpecifier(TypeSpecifier::Float(item->Token_0))),
    {
        let item = match item {
            SemanticValue::Token(x) => x,
            _ => {
                return SemanticValue::Empty;
            },
        };
        SemanticValue::TypeSpecifier(TypeSpecifier::Float(item))
    }

    /// The `double` keyword.
    pub fn make_double(item: SemanticValue) -> (r: SemanticValue)
        requires
            item is Token,
        ensures
            r == (SemanticValue::TypeSpecifier(TypeSpecifier::Double(item->Token_0))),
    {
        let item = match item {
            SemanticValue::Token(x) => x,
            _ => {
                return SemanticValue::Empty;
            },
        };
        SemanticValue::TypeSpecifier(TypeSpecifier::Double(item))
    }

    /// A struct or union specifier.
    pub fn make_struct(item: SemanticValue) -> (r: SemanticValue)
        requires
            item is StructOrUnionSpecifier,
        ensures
            r == (SemanticValue::TypeSpecifier(TypeSpecifier::StructOrUnion(item->StructOrUnionSpecifier_0))),
    {
        let item = match item {
            SemanticValue::StructOrUnionSpecifier(x) => x,
            _ => {
                return SemanticValue::Empty;
            },
        };
        SemanticValue::TypeSpecifier(TypeSpecifier::StructOrUnion(item))
    }

    /// An enum specifier.
    pub fn make_enum(item: SemanticValue) -> (r: SemanticValue)
        requires
            item is EnumSpecifier,
        ensures
            r == (SemanticValue::TypeSpecifier(TypeSpecifier::Enum(item->EnumSpecifier_0))),
    {
        let item = match item {
            SemanticValue::EnumSpecifier(x) => x,
            _ => {
                return SemanticValue::Empty;
            },
        };
        SemanticValue::TypeSpecifier(TypeSpecifier::Enum(item))
    }

    /// A typedef name.
    pub fn make_type_name(item: SemanticValue) -> (r: SemanticValue)
        requires
            item is Token,
        ensures
            r == (SemanticValue::TypeSpecifier(TypeSpecifier::TypeName(item->Token_0))),
    {
        let item = match item {
            SemanticValue::Token(x) => x,
            _ => {
                return SemanticValue::Empty;
            },
        };
        SemanticValue::TypeSpecifier(TypeSpecifier::TypeName(item))
    }
}

impl TypeQualifier {
    /// The `const` keyword.
    pub fn make_const(item: SemanticValue) -> (r: SemanticValue)
        requires
            item is Token,
        ensures
            r == (SemanticValue::TypeQualifier(TypeQualifier::Const(item->Token_0))),
    {
        let item = match item {
            SemanticValue::Token(x) => x,
            _ => {
                return SemanticValue::Empty;
            },
        };
        SemanticValue::TypeQualifier(TypeQualifier::Const(item))
    }

    /// The `volatile` keyword.
    pub fn make_volatile(item: SemanticValue) -> (r: SemanticValue)
        requires
            item is Token,
        ensures
            r == (SemanticValue::TypeQualifier(TypeQualifier::Volatile(item->Token_0))),
    {
        let item = match item {
            SemanticValue::Token(x) => x,
            _ => {
                return SemanticValue::Empty;
            },
        };
        SemanticValue::TypeQualifier(TypeQualifier::Volatile(item))
    }
}

impl StructOrUnionSpecifier {
    /// A struct or union definition.
    pub fn make_defined(kind: SemanticValue, name: SemanticValue, fields: SemanticValue) -> (r: SemanticValue)
        requires
            kind is StructOrUnion,
            name is IdentifierOpt,
            fields is StructDeclarationList,
        ensures
            r == (SemanticValue::StructOrUnionSpecifier(StructOrUnionSpecifier::Defined { kind: kind->StructOrUnion_0, name: name->IdentifierOpt_0, fields: fields->StructDeclarationList_0 })),
    {
        let kind = match kind {
            SemanticValue::StructOrUnion(x) => x,
            _ => {
                return SemanticValue::Empty;
            },
        };
        let name = match name {
            SemanticValue::IdentifierOpt(x) => x,
            _ => {
                return SemanticValue::Empty;
            },
        };
        let fields = match fields {
            SemanticValue::StructDeclarationList(x) => x,
            _ => {
                return SemanticValue::Empty;
            },
        };
        SemanticValue::StructOrUnionSpecifier(StructOrUnionSpecifier::Defined { kind: kind, name: name, fields: fields })
    }

    /// A reference to a struct or union by tag.
    pub fn make_named(kind: SemanticValue, name: SemanticValue) -> (r: SemanticValue)
        requires
            kind is StructOrUnion,
            name is Token,
        ensures
            r == (SemanticValue::StructOrUnionSpecifier(StructOrUnionSpecifier::Named { kind: kind->StructOrUnion_0, name: name->Token_0 })),
    {
        let kind = match kind {
            SemanticValue::StructOrUnion(x) => x,
            _ => {
                return SemanticValue::Empty;
            },
        };
        let name = match name {
            SemanticValue::Token(x) => x,
            _ => {
                return SemanticValue::Empty;
            },
        };
        SemanticValue::StructOrUnionSpecifier(StructOrUnionSpecifier::Named { kind: kind, name: name })
    }
}

impl StructOrUnion {
    /// The `struct` keyword.
    pub fn make_struct(item: SemanticValue) -> (r: SemanticValue)
        requires
            item is Token,
        ensures
            r == (SemanticValue::StructOrUnion(StructOrUnion::Struct(item->Token_0))),
    {
        let item = match item {
            SemanticValue::Token(x) => x,
            _ => {
                return SemanticValue::Empty;
            },
        };
        SemanticValue::StructOrUnion(StructOrUnion::Struct(item))
    }

    /// The `union` keyword.
    pub fn make_union(item: SemanticValue) -> (r: SemanticValue)
        requires
            item is Token,
        ensures
            r == (SemanticValue::StructOrUnion(StructOrUnion::Union(item->Token_0))),
    {
        let item = match item {
            SemanticValue::Token(x) => x,
            _ => {
                return SemanticValue::Empty;
            },
        };
        SemanticValue::StructOrUnion(StructOrUnion::Union(item))
    }
}

impl StructDeclaration {
    /// A member declaration.
    pub fn make_struct_declaration(specifiers: SemanticValue, declarators: SemanticValue) -> (r: SemanticValue)
        requires
            specifiers is SpecifierQualifierList,
            declarators is StructDeclaratorList,
        ensures
            r == (SemanticValue::StructDeclaration(StructDeclaration { specifiers: specifiers->SpecifierQualifierList_0, declarators: declarators->StructDeclaratorList_0 })),
    {
        let specifiers = match specifiers {
            SemanticValue::SpecifierQualifierList(x) => x,
            _ => {
                return SemanticValue::Empty;
            },
        };
        let declarators = match declarators {
            SemanticValue::StructDeclaratorList(x) => x,
            _ => {
                return SemanticValue::Empty;
            },
        };
        SemanticValue::StructDeclaration(StructDeclaration { specifiers: specifiers, declarators: declarators })
    }
}

impl StructDeclarator {
    /// A member declarator.
    pub fn make_declarator(item: SemanticValue) -> (r: SemanticValue)
        requires
            item is Declarator,
        ensures
            r == (SemanticValue::StructDeclarator(StructDeclarator::Declarator(item->Declarator_0))),
    {
        let item = match item {
            SemanticValue::Declarator(x) => x,
            _ => {
                return SemanticValue::Empty;
            },
        };
        SemanticValue::StructDeclarator(StructDeclarator::Declarator(item))
    }

    /// A bit-field, with its declarator if one is given.
    pub fn make_bitfield(decl_opt: SemanticValue, constexpr: SemanticValue) -> (r: SemanticValue)
        requires
            decl_opt is Declarator || decl_opt is Empty,
            constexpr is ConstantExpression,
        ensures
            r == (SemanticValue::StructDeclarator(StructDeclarator::Bitfield((if decl_opt is Declarator { Some(decl_opt->Declarator_0) } else { None }), constexpr->ConstantExpression_0))),
    {
        let decl_opt = match decl_opt {
            SemanticValue::Declarator(x) => Some(x),
            _ => None,
        };
        let constexpr = match constexpr {
            SemanticValue::ConstantExpression(x) => x,
            _ => {
                return SemanticValue::Empty;
            },
        };
        SemanticValue::StructDeclarator(StructDeclarator::Bitfield(decl_opt, constexpr))
    }
}

impl EnumSpecifier {
    /// An enum definition.
    pub fn make_defined(name: SemanticValue, enumerators: SemanticValue) -> (r: SemanticValue)
        requires
            name is IdentifierOpt,
            enumerators is EnumeratorList,
        ensures
            r == (SemanticValue::EnumSpecifier(EnumSpecifier::Defined { name: name->IdentifierOpt_0, enumerators: enumerators->EnumeratorList_0 })),
    {
        let name = match name {
            SemanticValue::IdentifierOpt(x) => x,
            _ => {
                return SemanticValue::Empty;
            },
        };
        let enumerators = match enumerators {
            SemanticValue::EnumeratorList(x) => x,
            _ => {
                return SemanticValue::Empty;
            },
        };
        SemanticValue::EnumSpecifier(EnumSpecifier::Defined { name: name, enumerators: enumerators })
    }

    /// A reference to an enum by tag.
    pub fn make_named(item: SemanticValue) -> (r: SemanticValue)
        requires
            item is Token,
        ensures
            r == (SemanticValue::EnumSpecifier(EnumSpecifier::Named(item->Token_0))),
    {
        let item = match item {
            SemanticValue::Token(x) => x,
            _ => {
                return SemanticValue::Empty;
            },
        };
        SemanticValue::EnumSpecifier(EnumSpecifier::Named(item))
    }
}

impl Enumerator {
    /// An enumerator without value.
    pub fn make_plain(item: SemanticValue) -> (r: SemanticValue)
        requires
            item is Token,
        ensures
            r == (SemanticValue::Enumerator(Enumerator::Plain(item->Token_0))),
    {
        let item = match item {
            SemanticValue::Token(x) => x,
            _ => {
                return SemanticValue::Empty;
            },
        };
        SemanticValue::Enumerator(Enumerator::Plain(item))
    }

    /// An enumerator with its value.
    pub fn make_with_value(item: SemanticValue, item2: SemanticValue) -> (r: SemanticValue)
        requires
            item is Token,
            item2 is ConstantExpression,
        ensures
            r == (SemanticValue::Enumerator(Enumerator::WithValue(item->Token_0, item2->ConstantExpression_0))),
    {
        let item = match item {
            SemanticValue::Token(x) => x,
            _ => {
                return SemanticValue::Empty;
            },
        };
        let item2 = match item2 {
            SemanticValue::ConstantExpression(x) => x,
            _ => {
                return SemanticValue::Empty;
            },
        };
        SemanticValue::Enumerator(Enumerator::WithValue(item, item2))
    }
}

impl Declarator {
    /// A declarator from its pointer, if any, and its direct declarator.
    pub fn make_declarator(pointer_opt: SemanticValue, direct: SemanticValue) -> (r: SemanticValue)
        requires
            pointer_opt is PointerOpt,
            direct is DirectDeclarator,
        ensures
            r == (SemanticValue::Declarator(Declarator { pointer: pointer_opt->PointerOpt_0, direct: direct->DirectDeclarator_0 })),
    {
        let pointer_opt = match pointer_opt {
            SemanticValue::PointerOpt(x) => x,
            _ => {
                return SemanticValue::Empty;
            },
        };
        let direct = match direct {
            SemanticValue::DirectDeclarator(x) => x,
            _ => {
                return SemanticValue::Empty;
            },
        };
        SemanticValue::Declarator(Declarator { pointer: pointer_opt, direct: direct })
    }
}

impl DirectDeclarator {
    /// The declared name.
    pub fn make_id(item: SemanticValue) -> (r: SemanticValue)
        requires
            item is Token,
        ensures
            r == (SemanticValue::DirectDeclarator(DirectDeclarator::Id(item->Token_0))),
    {
        let item = match item {
            SemanticValue::Token(x) => x,
            _ => {
                return SemanticValue::Empty;
            },
        };
        SemanticValue::DirectDeclarator(DirectDeclarator::Id(item))
    }

    /// A declarator in parentheses.
    pub fn make_paren(item: SemanticValue) -> (r: SemanticValue)
        requires
            item is Declarator,
        ensures
            r == (SemanticValue::DirectDeclarator(DirectDeclarator::Paren(Box::new(item->Declarator_0)))),
    {
        let item = match item {
            SemanticValue::Declarator(x) => x,
            _ => {
                return SemanticValue::Empty;
            },
        };
        let item = Box::new(item);
        SemanticValue::DirectDeclarator(DirectDeclarator::Paren(item))
    }

    /// An array declarator.
    pub fn make_array(direct: SemanticValue, constexpr_opt: SemanticValue) -> (r: SemanticValue)
        requires
            direct is DirectDeclarator,
            constexpr_opt is ConstantExpressionOpt,
        ensures
            r == (SemanticValue::DirectDeclarator(DirectDeclarator::Array(Box::new(direct->DirectDeclarator_0), constexpr_opt->ConstantExpressionOpt_0))),
    {
        let direct = match direct {
            SemanticValue::DirectDeclarator(x) => x,
            _ => {
                return SemanticValue::Empty;
            },
        };
        let direct = Box::new(direct);
        let constexpr_opt = match constexpr_opt {
            SemanticValue::ConstantExpressionOpt(x) => x,
            _ => {
                return SemanticValue::Empty;
            },
        };
        SemanticValue::DirectDeclarator(DirectDeclarator::Array(direct, constexpr_opt))
    }

    /// A function declarator with a prototype.
    pub fn make_func_params(direct: SemanticValue, param_type_list: SemanticValue) -> (r: SemanticValue)
        requires
            direct is DirectDeclarator,
            param_type_list is ParameterTypeList,
        ensures
            r == (SemanticValue::DirectDeclarator(DirectDeclarator::FuncParams(Box::new(direct->DirectDeclarator_0), param_type_list->ParameterTypeList_0))),
    {
        let direct = match direct {
            SemanticValue::DirectDeclarator(x) => x,
            _ => {
                return SemanticValue::Empty;
            },
        };
        let direct = Box::new(direct);
        let param_type_list = match param_type_list {
            SemanticValue::ParameterTypeList(x) => x,
            _ => {
                return SemanticValue::Empty;
            },
        };
        SemanticValue::DirectDeclarator(DirectDeclarator::FuncParams(direct, param_type_list))
    }

    /// A function declarator with bare parameter names.
    pub fn make_func_identifiers(direct: SemanticValue, tokens: SemanticValue) -> (r: SemanticValue)
        requires
            direct is DirectDeclarator,
            tokens is IdentifierListOpt,
        ensures
            r == (SemanticValue::DirectDeclarator(DirectDeclarator::FuncIdentifiers(Box::new(direct->DirectDeclarator_0), tokens->IdentifierListOpt_0))),
    {
        let direct = match direct {
            SemanticValue::DirectDeclarator(x) => x,
            _ => {
                return SemanticValue::Empty;
            },
        };
        let direct = Box::new(direct);
        let tokens = match tokens {
            SemanticValue::IdentifierListOpt(x) => x,
            _ => {
                return SemanticValue::Empty;
            },
        };
        SemanticValue::DirectDeclarator(DirectDeclarator::FuncIdentifiers(direct, tokens))
    }
}

impl Statement {
    /// A labeled statement as a statement.
    pub fn make_labeled(item: SemanticValue) -> (r: SemanticValue)
        requires
            item is LabeledStatement,
        ensures
            r == (SemanticValue::Statement(Statement::Labeled(item->LabeledStatement_0))),
    {
        let item = match item {
            SemanticValue::LabeledStatement(x) => x,
            _ => {
                return SemanticValue::Empty;
            },
        };
        SemanticValue::Statement(Statement::Labeled(item))
    }

    /// A compound statement as a statement.
    pub fn make_compound(item: SemanticValue) -> (r: SemanticValue)
        requires
            item is CompoundStatement,
        ensures
            r == (SemanticValue::Statement(Statement::Compound(item->CompoundStatement_0))),
    {
        let item = match item {
            SemanticValue::CompoundStatement(x) => x,
            _ => {
                return SemanticValue::Empty;
            },
        };
        SemanticValue::Statement(Statement::Compound(item))
    }

    /// A expression statement as a statement.
    pub fn make_expression(item: SemanticValue) -> (r: SemanticValue)
        requires
            item is ExpressionStatement,
        ensures
            r == (SemanticValue::Statement(Statement::Expression(item->ExpressionStatement_0))),
    {
        let item = match item {
            SemanticValue::ExpressionStatement(x) => x,
            _ => {
                return SemanticValue::Empty;
            },
        };
        SemanticValue::Statement(Statement::Expression(item))
    }

    /// A selection statement as a statement.
    pub fn make_selection(item: SemanticValue) -> (r: SemanticValue)
        requires
            item is SelectionStatement,
        ensures
            r == (SemanticValue::Statement(Statement::Selection(item->SelectionStatement_0))),
    {
        let item = match item {
            SemanticValue::SelectionStatement(x) => x,
            _ => {
                return SemanticValue::Empty;
            },
        };
        SemanticValue::Statement(Statement::Selection(item))
    }

    /// A iteration statement as a statement.
    pub fn make_iteration(item: SemanticValue) -> (r: SemanticValue)
        requires
            item is IterationStatement,
        ensures
            r == (SemanticValue::Statement(Statement::Iteration(item->IterationStatement_0))),
    {
        let item = match item {
            SemanticValue::IterationStatement(x) => x,
            _ => {
                return SemanticValue::Empty;
            },
        };
        SemanticValue::Statement(Statement::Iteration(item))
    }

    /// A jump statement as a statement.
    pub fn make_jump(item: SemanticValue) -> (r: SemanticValue)
        requires
            item is JumpStatement,
        ensures
            r == (SemanticValue::Statement(Statement::Jump(item->JumpStatement_0))),
    {
        let item = match item {
            SemanticValue::JumpStatement(x) => x,
            _ => {
                return SemanticValue::Empty;
            },
        };
        SemanticValue::Statement(Statement::Jump(item))
    }
}

impl LabeledStatement {
    /// A statement after a label.
    pub fn make_label(token: SemanticValue, statement: SemanticValue) -> (r: SemanticValue)
        requires
            token is Token,
            statement is Statement,
        ensures
            r == (SemanticValue::LabeledStatement(LabeledStatement::Label(token->Token_0, Box::new(statement->Statement_0)))),
    {
        let token = match token {
            SemanticValue::Token(x) => x,
            _ => {
                return SemanticValue::Empty;
            },
        };
        let statement = match statement {
            SemanticValue::Statement(x) => x,
            _ => {
                return SemanticValue::Empty;
            },
        };
        let statement = Box::new(statement);
        SemanticValue::LabeledStatement(LabeledStatement::Label(token, statement))
    }

    /// A statement after `case`.
    pub fn make_case(constexpr: SemanticValue, statement: SemanticValue) -> (r: SemanticValue)
        requires
            constexpr is ConstantExpression,
            statement is Statement,
        ensures
            r == (SemanticValue::LabeledStatement(LabeledStatement::Case(constexpr->ConstantExpression_0, Box::new(statement->Statement_0)))),
    {
        let constexpr = match constexpr {
            SemanticValue::ConstantExpression(x) => x,
            _ => {
                return SemanticValue::Empty;
            },
        };
        let statement = match statement {
            SemanticValue::Statement(x) => x,
            _ => {
                return SemanticValue::Empty;
            },
        };
        let statement = Box::new(statement);
        SemanticValue::LabeledStatement(LabeledStatement::Case(constexpr, statement))
    }

    /// A statement after `default`.
    pub fn make_default(item: SemanticValue) -> (r: SemanticValue)
        requires
            item is Statement,
        ensures
            r == (SemanticValue::LabeledStatement(LabeledStatement::Default(Box::new(item->Statement_0)))),
    {
        let item = match item {
            SemanticValue::Statement(x) => x,
            _ => {
                return SemanticValue::Empty;
            },
        };
        let item = Box::new(item);
        SemanticValue::LabeledStatement(LabeledStatement::Default(item))
    }
}

impl CompoundStatement {
    /// Empty braces.
    pub fn make_empty(item: SemanticValue) -> (r: SemanticValue)
        requires
            item is Token,
        ensures
            r == (SemanticValue::CompoundStatement(CompoundStatement::Empty(item->Token_0))),
    {
        let item = match item {
            SemanticValue::Token(x) => x,
            _ => {
                return SemanticValue::Empty;
            },
        };
        SemanticValue::CompoundStatement(CompoundStatement::Empty(item))
    }

    /// Braces around block items.
    pub fn make_expr(item: SemanticValue) -> (r: SemanticValue)
        requires
            item is BlockItemList,
        ensures
            r == (SemanticValue::CompoundStatement(CompoundStatement::Block(item->BlockItemList_0))),
    {
        let item = match item {
            SemanticValue::BlockItemList(x) => x,
            _ => {
                return SemanticValue::Empty;
            },
        };
        SemanticValue::CompoundStatement(CompoundStatement::Block(item))
    }
}

impl BlockItem {
    /// A declaration as a block item.
    pub fn make_declaration(item: SemanticValue) -> (r: SemanticValue)
        requires
            item is Declaration,
        ensures
            r == (SemanticValue::BlockItem(BlockItem::Declaration(item->Declaration_0))),
    {
        let item = match item {
            SemanticValue::Declaration(x) => x,
            _ => {
                return SemanticValue::Empty;
            },
        };
        SemanticValue::BlockItem(BlockItem::Declaration(item))
    }

    /// A statement as a block item.
    pub fn make_statement(item: SemanticValue) -> (r: SemanticValue)
        requires
            item is Statement,
        ensures
            r == (SemanticValue::BlockItem(BlockItem::Statement(item->Statement_0))),
    {
        let item = match item {
            SemanticValue::Statement(x) => x,
            _ => {
                return SemanticValue::Empty;
            },
        };
        SemanticValue::BlockItem(BlockItem::Statement(item))
    }
}

impl ExpressionStatement {
    /// A lone `;`.
    pub fn make_empty(item: SemanticValue) -> (r: SemanticValue)
        requires
            item is Token,
        ensures
            r == (SemanticValue::ExpressionStatement(ExpressionStatement::Empty(item->Token_0))),
    {
        let item = match item {
            SemanticValue::Token(x) => x,
            _ => {
                return SemanticValue::Empty;
            },
        };
        SemanticValue::ExpressionStatement(ExpressionStatement::Empty(item))
    }

    /// An expression statement.
    pub fn make_expr(item: SemanticValue) -> (r: SemanticValue)
        requires
            item is Expression,
        ensures
            r == (SemanticValue::ExpressionStatement(ExpressionStatement::Expr(item->Expression_0))),
    {
        let item = match item {
            SemanticValue::Expression(x) => x,
            _ => {
                return SemanticValue::Empty;
            },
        };
        SemanticValue::ExpressionStatement(ExpressionStatement::Expr(item))
    }
}

impl SelectionStatement {
    /// `if`, with its `else` branch if any.
    pub fn make_if(cond: SemanticValue, then_stmt: SemanticValue, else_stmt: SemanticValue) -> (r: SemanticValue)
        requires
            cond is Expression,
            then_stmt is Statement,
            else_stmt is Statement || else_stmt is Empty,
        ensures
            r == (SemanticValue::SelectionStatement(SelectionStatement::If { cond: cond->Expression_0, then_stmt: Box::new(then_stmt->Statement_0), else_stmt: (if else_stmt is Statement { Some(Box::new(else_stmt->Statement_0)) } else { None }) })),
    {
        let cond = match cond {
            SemanticValue::Expression(x) => x,
            _ => {
                return SemanticValue::Empty;
            },
        };
        let then_stmt = match then_stmt {
            SemanticValue::Statement(x) => x,
            _ => {
                return SemanticValue::Empty;
            },
        };
        let then_stmt = Box::new(then_stmt);
        let else_stmt = match else_stmt {
            SemanticValue::Statement(x) => Some(Box::new(x)),
            _ => None,
        };
        SemanticValue::SelectionStatement(SelectionStatement::If { cond: cond, then_stmt: then_stmt, else_stmt: else_stmt })
    }

    /// `switch`.
    pub fn make_switch(cond: SemanticValue, body: SemanticValue) -> (r: SemanticValue)
        requires
            cond is Expression,
            body is Statement,
        ensures
            r == (SemanticValue::SelectionStatement(SelectionStatement::Switch { cond: cond->Expression_0, body: Box::new(body->Statement_0) })),
    {
        let cond = match cond {
            SemanticValue::Expression(x) => x,
            _ => {
                return SemanticValue::Empty;
            },
        };
        let body = match body {
            SemanticValue::Statement(x) => x,
            _ => {
                return SemanticValue::Empty;
            },
        };
        let body = Box::new(body);
        SemanticValue::SelectionStatement(SelectionStatement::Switch { cond: cond, body: body })
    }
}

impl IterationStatement {
    /// `while`.
    pub fn make_while(cond: SemanticValue, body: SemanticValue) -> (r: SemanticValue)
        requires
            cond is Expression,
            body is Statement,
        ensures
            r == (SemanticValue::IterationStatement(IterationStatement::While { cond: cond->Expression_0, body: Box::new(body->Statement_0) })),
    {
        let cond = match cond {
            SemanticValue::Expression(x) => x,
            _ => {
                return SemanticValue::Empty;
            },
        };
        let body = match body {
            SemanticValue::Statement(x) => x,
            _ => {
                return SemanticValue::Empty;
            },
        };
        let body = Box::new(body);
        SemanticValue::IterationStatement(IterationStatement::While { cond: cond, body: body })
    }

    /// `do ... while`.
    pub fn make_do_while(body: SemanticValue, cond: SemanticValue) -> (r: SemanticValue)
        requires
            body is Statement,
            cond is Expression,
        ensures
            r == (SemanticValue::IterationStatement(IterationStatement::DoWhile { body: Box::new(body->Statement_0), cond: cond->Expression_0 })),
    {
        let body = match body {
            SemanticValue::Statement(x) => x,
            _ => {
                return SemanticValue::Empty;
            },
        };
        let body = Box::new(body);
        let cond = match cond {
            SemanticValue::Expression(x) => x,
            _ => {
                return SemanticValue::Empty;
            },
        };
        SemanticValue::IterationStatement(IterationStatement::DoWhile { body: body, cond: cond })
    }

    /// `for`, each of its three expressions optional.
    pub fn make_for(init: SemanticValue, cond: SemanticValue, step: SemanticValue, body: SemanticValue) -> (r: SemanticValue)
        requires
            init is ExpressionOpt,
            cond is ExpressionOpt,
            step is ExpressionOpt,
            body is Statement,
        ensures
            r == (SemanticValue::IterationStatement(IterationStatement::For { init: init->ExpressionOpt_0, cond: cond->ExpressionOpt_0, step: step->ExpressionOpt_0, body: Box::new(body->Statement_0) })),
    {
        let init = match init {
            SemanticValue::ExpressionOpt(x) => x,
            _ => {
                return SemanticValue::Empty;
            },
        };
        let cond = match cond {
            SemanticValue::ExpressionOpt(x) => x,
            _ => {
                return SemanticValue::Empty;
            },
        };
        let step = match step {
            SemanticValue::ExpressionOpt(x) => x,
            _ => {
                return SemanticValue::Empty;
            },
        };
        let body = match body {
            SemanticValue::Statement(x) => x,
            _ => {
                return SemanticValue::Empty;
            },
        };
        let body = Box::new(body);
        SemanticValue::IterationStatement(IterationStatement::For { init: init, cond: cond, step: step, body: body })
    }
}

impl JumpStatement {
    /// `goto label`.
    pub fn make_goto(item: SemanticValue) -> (r: SemanticValue)
        requires
            item is Token,
        ensures
            r == (SemanticValue::JumpStatement(JumpStatement::Goto(item->Token_0))),
    {
        let item = match item {
            SemanticValue::Token(x) => x,
            _ => {
                return SemanticValue::Empty;
            },
        };
        SemanticValue::JumpStatement(JumpStatement::Goto(item))
    }

    /// `continue`.
    pub fn make_continue(item: SemanticValue) -> (r: SemanticValue)
        requires
            item is Token,
        ensures
            r == (SemanticValue::JumpStatement(JumpStatement::Continue(item->Token_0))),
    {
        let item = match item {
            SemanticValue::Token(x) => x,
            _ => {
                return SemanticValue::Empty;
            },
        };
        SemanticValue::JumpStatement(JumpStatement::Continue(item))
    }

    /// `break`.
    pub fn make_break(item: SemanticValue) -> (r: SemanticValue)
        requires
            item is Token,
        ensures
            r == (SemanticValue::JumpStatement(JumpStatement::Break(item->Token_0))),
    {
        let item = match item {
            SemanticValue::Token(x) => x,
            _ => {
                return SemanticValue::Empty;
            },
        };
        SemanticValue::JumpStatement(JumpStatement::Break(item))
    }

    /// `return`, with its value if any.
    pub fn make_return(item: SemanticValue) -> (r: SemanticValue)
        requires
            item is Expression || item is Empty,
        ensures
            r == (SemanticValue::JumpStatement(JumpStatement::Return((if item is Expression { Some(item->Expression_0) } else { None })))),
    {
        let item = match item {
            SemanticValue::Expression(x) => Some(x),
            _ => None,
        };
        SemanticValue::JumpStatement(JumpStatement::Return(item))
    }
}

impl PrimaryExpression {
    /// An identifier.
    pub fn make_id(item: SemanticValue) -> (r: SemanticValue)
        requires
            item is Token,
        ensures
            r == (SemanticValue::PrimaryExpression(PrimaryExpression::Id(item->Token_0))),
    {
        let item = match item {
            SemanticValue::Token(x) => x,
            _ => {
                return SemanticValue::Empty;
            },
        };
        SemanticValue::PrimaryExpression(PrimaryExpression::Id(item))
    }

    /// A constant.
    pub fn make_constant(item: SemanticValue) -> (r: SemanticValue)
        requires
            item is Constant,
        ensures
            r == (SemanticValue::PrimaryExpression(PrimaryExpression::Constant(item->Constant_0))),
    {
        let item = match item {
            SemanticValue::Constant(x) => x,
            _ => {
                return SemanticValue::Empty;
            },
        };
        SemanticValue::PrimaryExpression(PrimaryExpression::Constant(item))
    }

    /// Adjacent string literals.
    pub fn make_string_literal(item: SemanticValue) -> (r: SemanticValue)
        requires
            item is String,
        ensures
            r == (SemanticValue::PrimaryExpression(PrimaryExpression::StringLiteral(item->String_0))),
    {
        let item = match item {
            SemanticValue::String(x) => x,
            _ => {
                return SemanticValue::Empty;
            },
        };
        SemanticValue::PrimaryExpression(PrimaryExpression::StringLiteral(item))
    }

    /// An expression in parentheses.
    pub fn make_paren(item: SemanticValue) -> (r: SemanticValue)
        requires
            item is Expression,
        ensures
            r == (SemanticValue::PrimaryExpression(PrimaryExpression::Paren(Box::new(item->Expression_0)))),
    {
        let item = match item {
            SemanticValue::Expression(x) => x,
            _ => {
                return SemanticValue::Empty;
            },
        };
        let item = Box::new(item);
        SemanticValue::PrimaryExpression(PrimaryExpression::Paren(item))
    }
}

impl Constant {
    /// An integer constant.
    pub fn make_int(item: SemanticValue) -> (r: SemanticValue)
        requires
            item is Token,
        ensures
            r == (SemanticValue::Constant(Constant::Int(item->Token_0))),
    {
        let item = match item {
            SemanticValue::Token(x) => x,
            _ => {
                return SemanticValue::Empty;
            },
        };
        SemanticValue::Constant(Constant::Int(item))
    }

    /// A floating constant.
    pub fn make_float(item: SemanticValue) -> (r: SemanticValue)
        requires
            item is Token,
        ensures
            r == (SemanticValue::Constant(Constant::Float(item->Token_0))),
    {
        let item = match item {
            SemanticValue::Token(x) => x,
            _ => {
                return SemanticValue::Empty;
            },
        };
        SemanticValue::Constant(Constant::Float(item))
    }

    /// A character constant.
    pub fn make_char(item: SemanticValue) -> (r: SemanticValue)
        requires
            item is Token,
        ensures
            r == (SemanticValue::Constant(Constant::Char(item->Token_0))),
    {
        let item = match item {
            SemanticValue::Token(x) => x,
            _ => {
                return SemanticValue::Empty;
            },
        };
        SemanticValue::Constant(Constant::Char(item))
    }
}

impl PostfixExpression {
    /// A primary expression.
    pub fn make_primary(item: SemanticValue) -> (r: SemanticValue)
        requires
            item is PrimaryExpression,
        ensures
            r == (SemanticValue::PostfixExpression(PostfixExpression::Primary(item->PrimaryExpression_0))),
    {
        let item = match item {
            SemanticValue::PrimaryExpression(x) => x,
            _ => {
                return SemanticValue::Empty;
            },
        };
        SemanticValue::PostfixExpression(PostfixExpression::Primary(item))
    }

    /// An array subscript.
    pub fn make_array(postfix: SemanticValue, expr: SemanticValue) -> (r: SemanticValue)
        requires
            postfix is PostfixExpression,
            expr is Expression,
        ensures
            r == (SemanticValue::PostfixExpression(PostfixExpression::Array(Box::new(postfix->PostfixExpression_0), Box::new(expr->Expression_0)))),
    {
        let postfix = match postfix {
            SemanticValue::PostfixExpression(x) => x,
            _ => {
                return SemanticValue::Empty;
            },
        };
        let postfix = Box::new(postfix);
        let expr = match expr {
            SemanticValue::Expression(x) => x,
            _ => {
                return SemanticValue::Empty;
            },
        };
        let expr = Box::new(expr);
        SemanticValue::PostfixExpression(PostfixExpression::Array(postfix, expr))
    }

    /// A call.
    pub fn make_call(postfix: SemanticValue, arg: SemanticValue) -> (r: SemanticValue)
        requires
            postfix is PostfixExpression,
            arg is ArgumentExpressionListOpt,
        ensures
            r == (SemanticValue::PostfixExpression(PostfixExpression::Call(Box::new(postfix->PostfixExpression_0), arg->ArgumentExpressionListOpt_0))),
    {
        let postfix = match postfix {
            SemanticValue::PostfixExpression(x) => x,
            _ => {
                return SemanticValue::Empty;
            },
        };
        let postfix = Box::new(postfix);
        let arg = match arg {
            SemanticValue::ArgumentExpressionListOpt(x) => x,
            _ => {
                return SemanticValue::Empty;
            },
        };
        SemanticValue::PostfixExpression(PostfixExpression::Call(postfix, arg))
    }

    /// A member access with `.`.
    pub fn make_field(postfix: SemanticValue, id: SemanticValue) -> (r: SemanticValue)
        requires
            postfix is PostfixExpression,
            id is Token,
        ensures
            r == (SemanticValue::PostfixExpression(PostfixExpression::Field(Box::new(postfix->PostfixExpression_0), id->Token_0))),
    {
        let postfix = match postfix {
            SemanticValue::PostfixExpression(x) => x,
            _ => {
                return SemanticValue::Empty;
            },
        };
        let postfix = Box::new(postfix);
        let id = match id {
            SemanticValue::Token(x) => x,
            _ => {
                return SemanticValue::Empty;
            },
        };
        SemanticValue::PostfixExpression(PostfixExpression::Field(postfix, id))
    }

    /// A member access with `->`.
    pub fn make_arrow(postfix: SemanticValue, id: SemanticValue) -> (r: SemanticValue)
        requires
            postfix is PostfixExpression,
            id is Token,
        ensures
            r == (SemanticValue::PostfixExpression(PostfixExpression::Arrow(Box::new(postfix->PostfixExpression_0), id->Token_0))),
    {
        let postfix = match postfix {
            SemanticValue::PostfixExpression(x) => x,
            _ => {
                return SemanticValue::Empty;
            },
        };
        let postfix = Box::new(postfix);
        let id = match id {
            SemanticValue::Token(x) => x,
            _ => {
                return SemanticValue::Empty;
            },
        };
        SemanticValue::PostfixExpression(PostfixExpression::Arrow(postfix, id))
    }

    /// A postfix `++`.
    pub fn make_inc(item: SemanticValue) -> (r: SemanticValue)
        requires
            item is PostfixExpression,
        ensures
            r == (SemanticValue::PostfixExpression(PostfixExpression::Inc(Box::new(item->PostfixExpression_0)))),
    {
        let item = match item {
            SemanticValue::PostfixExpression(x) => x,
            _ => {
                return SemanticValue::Empty;
            },
        };
        let item = Box::new(item);
        SemanticValue::PostfixExpression(PostfixExpression::Inc(item))
    }

    /// A postfix `--`.
    pub fn make_dec(item: SemanticValue) -> (r: SemanticValue)
        requires
            item is PostfixExpression,
        ensures
            r == (SemanticValue::PostfixExpression(PostfixExpression::Dec(Box::new(item->PostfixExpression_0)))),
    {
        let item = match item {
            SemanticValue::PostfixExpression(x) => x,
            _ => {
                return SemanticValue::Empty;
            },
        };
        let item = Box::new(item);
        SemanticValue::PostfixExpression(PostfixExpression::Dec(item))
    }
}

impl UnaryExpression {
    /// A postfix expression.
    pub fn make_postfix(item: SemanticValue) -> (r: SemanticValue)
        requires
            item is PostfixExpression,
        ensures
            r == (SemanticValue::UnaryExpression(UnaryExpression::Postfix(item->PostfixExpression_0))),
    {
        let item = match item {
            SemanticValue::PostfixExpression(x) => x,
            _ => {
                return SemanticValue::Empty;
            },
        };
        SemanticValue::UnaryExpression(UnaryExpression::Postfix(item))
    }

    /// A prefix `++`.
    pub fn make_pre_inc(item: SemanticValue) -> (r: SemanticValue)
        requires
            item is UnaryExpression,
        ensures
            r == (SemanticValue::UnaryExpression(UnaryExpression::PreInc(Box::new(item->UnaryExpression_0)))),
    {
        let item = match item {
            SemanticValue::UnaryExpression(x) => x,
            _ => {
                return SemanticValue::Empty;
            },
        };
        let item = Box::new(item);
        SemanticValue::UnaryExpression(UnaryExpression::PreInc(item))
    }

    /// A prefix `--`; the rule builds the `PreInc` node.
    pub fn make_pre_dec(item: SemanticValue) -> (r: SemanticValue)
        requires
            item is UnaryExpression,
        ensures
            r == (SemanticValue::UnaryExpression(UnaryExpression::PreInc(Box::new(item->UnaryExpression_0)))),
    {
        let item = match item {
            SemanticValue::UnaryExpression(x) => x,
            _ => {
                return SemanticValue::Empty;
            },
        };
        let item = Box::new(item);
        SemanticValue::UnaryExpression(UnaryExpression::PreInc(item))
    }

    /// A unary operator applied to a cast expression.
    pub fn make_unary_op(unary: SemanticValue, cast: SemanticValue) -> (r: SemanticValue)
        requires
            unary is UnaryOperator,
            cast is CastExpression,
        ensures
            r == (SemanticValue::UnaryExpression(UnaryExpression::UnaryOp(unary->UnaryOperator_0, Box::new(cast->CastExpression_0)))),
    {
        let unary = match unary {
            SemanticValue::UnaryOperator(x) => x,
            _ => {
                return SemanticValue::Empty;
            },
        };
        let cast = match cast {
            SemanticValue::CastExpression(x) => x,
            _ => {
                return SemanticValue::Empty;
            },
        };
        let cast = Box::new(cast);
        SemanticValue::UnaryExpression(UnaryExpression::UnaryOp(unary, cast))
    }

    /// `sizeof` of an expression.
    pub fn make_sizeof_expr(item: SemanticValue) -> (r: SemanticValue)
        requires
            item is UnaryExpression,
        ensures
            r == (SemanticValue::UnaryExpression(UnaryExpression::SizeofExpr(Box::new(item->UnaryExpression_0)))),
    {
        let item = match item {
            SemanticValue::UnaryExpression(x) => x,
            _ => {
                return SemanticValue::Empty;
            },
        };
        let item = Box::new(item);
        SemanticValue::UnaryExpression(UnaryExpression::SizeofExpr(item))
    }

    /// `sizeof` of a type name.
    pub fn make_sizeof_type(item: SemanticValue) -> (r: SemanticValue)
        requires
            item is TypeName,
        ensures
            r == (SemanticValue::UnaryExpression(UnaryExpression::SizeofType(Box::new(item->TypeName_0)))),
    {
        let item = match item {
            SemanticValue::TypeName(x) => x,
            _ => {
                return SemanticValue::Empty;
            },
        };
        let item = Box::new(item);
        SemanticValue::UnaryExpression(UnaryExpression::SizeofType(item))
    }
}

impl UnaryOperator {
    /// The unary operator `&`.
    pub fn address_of(item: SemanticValue) -> (r: SemanticValue)
        requires
            item is Token,
        ensures
            r == (SemanticValue::UnaryOperator(UnaryOperator::AddressOf(item->Token_0))),
    {
        let item = match item {
            SemanticValue::Token(x) => x,
            _ => {
                return SemanticValue::Empty;
            },
        };
        SemanticValue::UnaryOperator(UnaryOperator::AddressOf(item))
    }

    /// The unary operator `*`.
    pub fn deref(item: SemanticValue) -> (r: SemanticValue)
        requires
            item is Token,
        ensures
            r == (SemanticValue::UnaryOperator(UnaryOperator::Deref(item->Token_0))),
    {
        let item = match item {
            SemanticValue::Token(x) => x,
            _ => {
                return SemanticValue::Empty;
            },
        };
        SemanticValue::UnaryOperator(UnaryOperator::Deref(item))
    }

    /// The unary operator `+`.
    pub fn plus(item: SemanticValue) -> (r: SemanticValue)
        requires
            item is Token,
        ensures
            r == (SemanticValue::UnaryOperator(UnaryOperator::Plus(item->Token_0))),
    {
        let item = match item {
            SemanticValue::Token(x) => x,
            _ => {
                return SemanticValue::Empty;
            },
        };
        SemanticValue::UnaryOperator(UnaryOperator::Plus(item))
    }

    /// The unary operator `-`.
    pub fn minus(item: SemanticValue) -> (r: SemanticValue)
        requires
            item is Token,
        ensures
            r == (SemanticValue::UnaryOperator(UnaryOperator::Minus(item->Token_0))),
    {
        let item = match item {
            SemanticValue::Token(x) => x,
            _ => {
                return SemanticValue::Empty;
            },
        };
        SemanticValue::UnaryOperator(UnaryOperator::Minus(item))
    }

    /// The unary operator `~`.
    pub fn bit_not(item: SemanticValue) -> (r: SemanticValue)
        requires
            item is Token,
        ensures
            r == (SemanticValue::UnaryOperator(UnaryOperator::BitNot(item->Token_0))),
    {
        let item = match item {
            SemanticValue::Token(x) => x,
            _ => {
                return SemanticValue::Empty;
            },
        };
        SemanticValue::UnaryOperator(UnaryOperator::BitNot(item))
    }

    /// The unary operator `!`.
    pub fn not(item: SemanticValue) -> (r: SemanticValue)
        requires
            item is Token,
        ensures
            r == (SemanticValue::UnaryOperator(UnaryOperator::Not(item->Token_0))),
    {
        let item = match item {
            SemanticValue::Token(x) => x,
            _ => {
                return SemanticValue::Empty;
            },
        };
        SemanticValue::UnaryOperator(UnaryOperator::Not(item))
    }
}

impl CastExpression {
    /// A cast.
    pub fn make_cast(ty_name: SemanticValue, cast: SemanticValue) -> (r: SemanticValue)
        requires
            ty_name is TypeName,
            cast is CastExpression,
        ensures
            r == (SemanticValue::CastExpression(CastExpression::Cast(Box::new(ty_name->TypeName_0), Box::new(cast->CastExpression_0)))),
    {
        let ty_name = match ty_name {
            SemanticValue::TypeName(x) => x,
            _ => {
                return SemanticValue::Empty;
            },
        };
        let ty_name = Box::new(ty_name);
        let cast = match cast {
            SemanticValue::CastExpression(x) => x,
            _ => {
                return SemanticValue::Empty;
            },
        };
        let cast = Box::new(cast);
        SemanticValue::CastExpression(CastExpression::Cast(ty_name, cast))
    }

    /// A unary expression.
    pub fn make_unary(item: SemanticValue) -> (r: SemanticValue)
        requires
            item is UnaryExpression,
        ensures
            r == (SemanticValue::CastExpression(CastExpression::Unary(item->UnaryExpression_0))),
    {
        let item = match item {
            SemanticValue::UnaryExpression(x) => x,
            _ => {
                return SemanticValue::Empty;
            },
        };
        SemanticValue::CastExpression(CastExpression::Unary(item))
    }
}

impl MultiplicativeExpression {
    /// `*`.
    pub fn make_mul(multi: SemanticValue, cast: SemanticValue) -> (r: SemanticValue)
        requires
            multi is MultiplicativeExpression,
            cast is CastExpression,
        ensures
            r == (SemanticValue::MultiplicativeExpression(MultiplicativeExpression::Mul(Box::new(multi->MultiplicativeExpression_0), cast->CastExpression_0))),
    {
        let multi = match multi {
            SemanticValue::MultiplicativeExpression(x) => x,
            _ => {
                return SemanticValue::Empty;
            },
        };
        let multi = Box::new(multi);
        let cast = match cast {
            SemanticValue::CastExpression(x) => x,
            _ => {
                return SemanticValue::Empty;
            },
        };
        SemanticValue::MultiplicativeExpression(MultiplicativeExpression::Mul(multi, cast))
    }

    /// `/`.
    pub fn make_div(multi: SemanticValue, cast: SemanticValue) -> (r: SemanticValue)
        requires
            multi is MultiplicativeExpression,
            cast is CastExpression,
        ensures
            r == (SemanticValue::MultiplicativeExpression(MultiplicativeExpression::Div(Box::new(multi->MultiplicativeExpression_0), cast->CastExpression_0))),
    {
        let multi = match multi {
            SemanticValue::MultiplicativeExpression(x) => x,
            _ => {
                return SemanticValue::Empty;
            },
        };
        let multi = Box::new(multi);
        let cast = match cast {
            SemanticValue::CastExpression(x) => x,
            _ => {
                return SemanticValue::Empty;
            },
        };
        SemanticValue::MultiplicativeExpression(MultiplicativeExpression::Div(multi, cast))
    }

    /// `%`.
    pub fn make_mod(multi: SemanticValue, cast: SemanticValue) -> (r: SemanticValue)
        requires
            multi is MultiplicativeExpression,
            cast is CastExpression,
        ensures
            r == (SemanticValue::MultiplicativeExpression(MultiplicativeExpression::Mod(Box::new(multi->MultiplicativeExpression_0), cast->CastExpression_0))),
    {
        let multi = match multi {
            SemanticValue::MultiplicativeExpression(x) => x,
            _ => {
                return SemanticValue::Empty;
            },
        };
        let multi = Box::new(multi);
        let cast = match cast {
            SemanticValue::CastExpression(x) => x,
            _ => {
                return SemanticValue::Empty;
            },
        };
        SemanticValue::MultiplicativeExpression(MultiplicativeExpression::Mod(multi, cast))
    }

    /// A cast expression.
    pub fn make_cast(item: SemanticValue) -> (r: SemanticValue)
        requires
            item is CastExpression,
        ensures
            r == (SemanticValue::MultiplicativeExpression(MultiplicativeExpression::Cast(item->CastExpression_0))),
    {
        let item = match item {
            SemanticValue::CastExpression(x) => x,
            _ => {
                return SemanticValue::Empty;
            },
        };
        SemanticValue::MultiplicativeExpression(MultiplicativeExpression::Cast(item))
    }
}

impl AdditiveExpression {
    /// `+`.
    pub fn make_add(additive: SemanticValue, multi: SemanticValue) -> (r: SemanticValue)
        requires
            additive is AdditiveExpression,
            multi is MultiplicativeExpression,
        ensures
            r == (SemanticValue::AdditiveExpression(AdditiveExpression::Add(Box::new(additive->AdditiveExpression_0), multi->MultiplicativeExpression_0))),
    {
        let additive = match additive {
            SemanticValue::AdditiveExpression(x) => x,
            _ => {
                return SemanticValue::Empty;
            },
        };
        let additive = Box::new(additive);
        let multi = match multi {
            SemanticValue::MultiplicativeExpression(x) => x,
            _ => {
                return SemanticValue::Empty;
            },
        };
        SemanticValue::AdditiveExpression(AdditiveExpression::Add(additive, multi))
    }

    /// `-`; the rule builds the `Add` node.
    pub fn make_sub(additive: SemanticValue, multi: SemanticValue) -> (r: SemanticValue)
        requires
            additive is AdditiveExpression,
            multi is MultiplicativeExpression,
        ensures
            r == (SemanticValue::AdditiveExpression(AdditiveExpression::Add(Box::new(additive->AdditiveExpression_0), multi->MultiplicativeExpression_0))),
    {
        let additive = match additive {
            SemanticValue::AdditiveExpression(x) => x,
            _ => {
                return SemanticValue::Empty;
            },
        };
        let additive = Box::new(additive);
        let multi = match multi {
            SemanticValue::MultiplicativeExpression(x) => x,
            _ => {
                return SemanticValue::Empty;
            },
        };
        SemanticValue::AdditiveExpression(AdditiveExpression::Add(additive, multi))
    }

    /// A multiplicative expression.
    pub fn make_mul(item: SemanticValue) -> (r: SemanticValue)
        requires
            item is MultiplicativeExpression,
        ensures
            r == (SemanticValue::AdditiveExpression(AdditiveExpression::Mul(item->MultiplicativeExpression_0))),
    {
        let item = match item {
            SemanticValue::MultiplicativeExpression(x) => x,
            _ => {
                return SemanticValue::Empty;
            },
        };
        SemanticValue::AdditiveExpression(AdditiveExpression::Mul(item))
    }
}

impl ShiftExpression {
    /// `<<`.
    pub fn make_shl(shift: SemanticValue, additive: SemanticValue) -> (r: SemanticValue)
        requires
            shift is ShiftExpression,
            additive is AdditiveExpression,
        ensures
            r == (SemanticValue::ShiftExpression(ShiftExpression::Shl(Box::new(shift->ShiftExpression_0), additive->AdditiveExpression_0))),
    {
        let shift = match shift {
            SemanticValue::ShiftExpression(x) => x,
            _ => {
                return SemanticValue::Empty;
            },
        };
        let shift = Box::new(shift);
        let additive = match additive {
            SemanticValue::AdditiveExpression(x) => x,
            _ => {
                return SemanticValue::Empty;
            },
        };
        SemanticValue::ShiftExpression(ShiftExpression::Shl(shift, additive))
    }

    /// `>>`.
    pub fn make_shr(shift: SemanticValue, additive: SemanticValue) -> (r: SemanticValue)
        requires
            shift is ShiftExpression,
            additive is AdditiveExpression,
        ensures
            r == (SemanticValue::ShiftExpression(ShiftExpression::Shr(Box::new(shift->ShiftExpression_0), additive->AdditiveExpression_0))),
    {
        let shift = match shift {
            SemanticValue::ShiftExpression(x) => x,
            _ => {
                return SemanticValue::Empty;
            },
        };
        let shift = Box::new(shift);
        let additive = match additive {
            SemanticValue::AdditiveExpression(x) => x,
            _ => {
                return SemanticValue::Empty;
            },
        };
        SemanticValue::ShiftExpression(ShiftExpression::Shr(shift, additive))
    }

    /// An additive expression.
    pub fn make_add(item: SemanticValue) -> (r: SemanticValue)
        requires
            item is AdditiveExpression,
        ensures
            r == (SemanticValue::ShiftExpression(ShiftExpression::Add(item->AdditiveExpression_0))),
    {
        let item = match item {
            SemanticValue::AdditiveExpression(x) => x,
            _ => {
                return SemanticValue::Empty;
            },
        };
        SemanticValue::ShiftExpression(ShiftExpression::Add(item))
    }
}

impl RelationalExpression {
    /// `<`.
    pub fn make_lt(relation: SemanticValue, shift: SemanticValue) -> (r: SemanticValue)
        requires
            relation is RelationalExpression,
            shift is ShiftExpression,
        ensures
            r == (SemanticValue::RelationalExpression(RelationalExpression::Lt(Box::new(relation->RelationalExpression_0), shift->ShiftExpression_0))),
    {
        let relation = match relation {
            SemanticValue::RelationalExpression(x) => x,
            _ => {
                return SemanticValue::Empty;
            },
        };
        let relation = Box::new(relation);
        let shift = match shift {
            SemanticValue::ShiftExpression(x) => x,
            _ => {
                return SemanticValue::Empty;
            },
        };
        SemanticValue::RelationalExpression(RelationalExpression::Lt(relation, shift))
    }

    /// `>`; the rule builds the `Lt` node.
    pub fn make_gt(relation: SemanticValue, shift: SemanticValue) -> (r: SemanticValue)
        requires
            relation is RelationalExpression,
            shift is ShiftExpression,
        ensures
            r == (SemanticValue::RelationalExpression(RelationalExpression::Lt(Box::new(relation->RelationalExpression_0), shift->ShiftExpression_0))),
    {
        let relation = match relation {
            SemanticValue::RelationalExpression(x) => x,
            _ => {
                return SemanticValue::Empty;
            },
        };
        let relation = Box::new(relation);
        let shift = match shift {
            SemanticValue::ShiftExpression(x) => x,
            _ => {
                return SemanticValue::Empty;
            },
        };
        SemanticValue::RelationalExpression(RelationalExpression::Lt(relation, shift))
    }

    /// `<=`; the rule builds the `Lt` node.
    pub fn make_le(relation: SemanticValue, shift: SemanticValue) -> (r: SemanticValue)
        requires
            relation is RelationalExpression,
            shift is ShiftExpression,
        ensures
            r == (SemanticValue::RelationalExpression(RelationalExpression::Lt(Box::new(relation->RelationalExpression_0), shift->ShiftExpression_0))),
    {
        let relation = match relation {
            SemanticValue::RelationalExpression(x) => x,
            _ => {
                return SemanticValue::Empty;
            },
        };
        let relation = Box::new(relation);
        let shift = match shift {
            SemanticValue::ShiftExpression(x) => x,
            _ => {
                return SemanticValue::Empty;
            },
        };
        SemanticValue::RelationalExpression(RelationalExpression::Lt(relation, shift))
    }

    /// `>=`; the rule builds the `Lt` node.
    pub fn make_ge(relation: SemanticValue, shift: SemanticValue) -> (r: SemanticValue)
        requires
            relation is RelationalExpression,
            shift is ShiftExpression,
        ensures
            r == (SemanticValue::RelationalExpression(RelationalExpression::Lt(Box::new(relation->RelationalExpression_0), shift->ShiftExpression_0))),
    {
        let relation = match relation {
            SemanticValue::RelationalExpression(x) => x,
            _ => {
                return SemanticValue::Empty;
            },
        };
        let relation = Box::new(relation);
        let shift = match shift {
            SemanticValue::ShiftExpression(x) => x,
            _ => {
                return SemanticValue::Empty;
            },
        };
        SemanticValue::RelationalExpression(RelationalExpression::Lt(relation, shift))
    }

    /// A shift expression.
    pub fn make_shift(item: SemanticValue) -> (r: SemanticValue)
        requires
            item is ShiftExpression,
        ensures
            r == (SemanticValue::RelationalExpression(RelationalExpression::Shift(item->ShiftExpression_0))),
    {
        let item = match item {
            SemanticValue::ShiftExpression(x) => x,
            _ => {
                return SemanticValue::Empty;
            },
        };
        SemanticValue::RelationalExpression(RelationalExpression::Shift(item))
    }
}

impl EqualityExpression {
    /// `==`.
    pub fn make_eq(equ: SemanticValue, relation: SemanticValue) -> (r: SemanticValue)
        requires
            equ is EqualityExpression,
            relation is RelationalExpression,
        ensures
            r == (SemanticValue::EqualityExpression(EqualityExpression::Eq(Box::new(equ->EqualityExpression_0), relation->RelationalExpression_0))),
    {
        let equ = match equ {
            SemanticValue::EqualityExpression(x) => x,
            _ => {
                return SemanticValue::Empty;
            },
        };
        let equ = Box::new(equ);
        let relation = match relation {
            SemanticValue::RelationalExpression(x) => x,
            _ => {
                return SemanticValue::Empty;
            },
        };
        SemanticValue::EqualityExpression(EqualityExpression::Eq(equ, relation))
    }

    /// `!=`.
    pub fn make_ne(equ: SemanticValue, relation: SemanticValue) -> (r: SemanticValue)
        requires
            equ is EqualityExpression,
            relation is RelationalExpression,
        ensures
            r == (SemanticValue::EqualityExpression(EqualityExpression::Ne(Box::new(equ->EqualityExpression_0), relation->RelationalExpression_0))),
    {
        let equ = match equ {
            SemanticValue::EqualityExpression(x) => x,
            _ => {
                return SemanticValue::Empty;
            },
        };
        let equ = Box::new(equ);
        let relation = match relation {
            SemanticValue::RelationalExpression(x) => x,
            _ => {
                return SemanticValue::Empty;
            },
        };
        SemanticValue::EqualityExpression(EqualityExpression::Ne(equ, relation))
    }

    /// A relational expression.
    pub fn make_rel(item: SemanticValue) -> (r: SemanticValue)
        requires
            item is RelationalExpression,
        ensures
            r == (SemanticValue::EqualityExpression(EqualityExpression::Rel(item->RelationalExpression_0))),
    {
        let item = match item {
            SemanticValue::RelationalExpression(x) => x,
            _ => {
                return SemanticValue::Empty;
            },
        };
        SemanticValue::EqualityExpression(EqualityExpression::Rel(item))
    }
}

impl AndExpression {
    /// `&`.
    pub fn make_and(and: SemanticValue, equ: SemanticValue) -> (r: SemanticValue)
        requires
            and is AndExpression,
            equ is EqualityExpression,
        ensures
            r == (SemanticValue::AndExpression(AndExpression::And(Box::new(and->AndExpression_0), equ->EqualityExpression_0))),
    {
        let and = match and {
            SemanticValue::AndExpression(x) => x,
            _ => {
                return SemanticValue::Empty;
            },
        };
        let and = Box::new(and);
        let equ = match equ {
            SemanticValue::EqualityExpression(x) => x,
            _ => {
                return SemanticValue::Empty;
            },
        };
        SemanticValue::AndExpression(AndExpression::And(and, equ))
    }

    /// An equality expression.
    pub fn make_eq(item: SemanticValue) -> (r: SemanticValue)
        requires
            item is EqualityExpression,
        ensures
            r == (SemanticValue::AndExpression(AndExpression::Eq(item->EqualityExpression_0))),
    {
        let item = match item {
            SemanticValue::EqualityExpression(x) => x,
            _ => {
                return SemanticValue::Empty;
            },
        };
        SemanticValue::AndExpression(AndExpression::Eq(item))
    }
}

impl ExclusiveOrExpression {
    /// `^`.
    pub fn make_xor(or: SemanticValue, and: SemanticValue) -> (r: SemanticValue)
        requires
            or is ExclusiveOrExpression,
            and is AndExpression,
        ensures
            r == (SemanticValue::ExclusiveOrExpression(ExclusiveOrExpression::Xor(Box::new(or->ExclusiveOrExpression_0), and->AndExpression_0))),
    {
        let or = match or {
            SemanticValue::ExclusiveOrExpression(x) => x,
            _ => {
                return SemanticValue::Empty;
            },
        };
        let or = Box::new(or);
        let and = match and {
            SemanticValue::AndExpression(x) => x,
            _ => {
                return SemanticValue::Empty;
            },
        };
        SemanticValue::ExclusiveOrExpression(ExclusiveOrExpression::Xor(or, and))
    }

    /// An and expression.
    pub fn make_and(item: SemanticValue) -> (r: SemanticValue)
        requires
            item is AndExpression,
        ensures
            r == (SemanticValue::ExclusiveOrExpression(ExclusiveOrExpression::And(item->AndExpression_0))),
    {
        let item = match item {
            SemanticValue::AndExpression(x) => x,
            _ => {
                return SemanticValue::Empty;
            },
        };
        SemanticValue::ExclusiveOrExpression(ExclusiveOrExpression::And(item))
    }
}

impl InclusiveOrExpression {
    /// `|`.
    pub fn make_or(or1: SemanticValue, or2: SemanticValue) -> (r: SemanticValue)
        requires
            or1 is InclusiveOrExpression,
            or2 is ExclusiveOrExpression,
        ensures
            r == (SemanticValue::InclusiveOrExpression(InclusiveOrExpression::Or(Box::new(or1->InclusiveOrExpression_0), or2->ExclusiveOrExpression_0))),
    {
        let or1 = match or1 {
            SemanticValue::InclusiveOrExpression(x) => x,
            _ => {
                return SemanticValue::Empty;
            },
        };
        let or1 = Box::new(or1);
        let or2 = match or2 {
            SemanticValue::ExclusiveOrExpression(x) => x,
            _ => {
                return SemanticValue::Empty;
            },
        };
        SemanticValue::InclusiveOrExpression(InclusiveOrExpression::Or(or1, or2))
    }

    /// An exclusive-or expression.
    pub fn make_xor(item: SemanticValue) -> (r: SemanticValue)
        requires
            item is ExclusiveOrExpression,
        ensures
            r == (SemanticValue::InclusiveOrExpression(InclusiveOrExpression::Xor(item->ExclusiveOrExpression_0))),
    {
        let item = match item {
            SemanticValue::ExclusiveOrExpression(x) => x,
            _ => {
                return SemanticValue::Empty;
            },
        };
        SemanticValue::InclusiveOrExpression(InclusiveOrExpression::Xor(item))
    }
}

impl LogicalAndExpression {
    /// `&&`.
    pub fn make_and(and: SemanticValue, or: SemanticValue) -> (r: SemanticValue)
        requires
            and is LogicalAndExpression,
            or is InclusiveOrExpression,
        ensures
            r == (SemanticValue::LogicalAndExpression(LogicalAndExpression::And(Box::new(and->LogicalAndExpression_0), or->InclusiveOrExpression_0))),
    {
        let and = match and {
            SemanticValue::LogicalAndExpression(x) => x,
            _ => {
                return SemanticValue::Empty;
            },
        };
        let and = Box::new(and);
        let or = match or {
            SemanticValue::InclusiveOrExpression(x) => x,
            _ => {
                return SemanticValue::Empty;
            },
        };
        SemanticValue::LogicalAndExpression(LogicalAndExpression::And(and, or))
    }

    /// An inclusive-or expression.
    pub fn make_or(item: SemanticValue) -> (r: SemanticValue)
        requires
            item is InclusiveOrExpression,
        ensures
            r == (SemanticValue::LogicalAndExpression(LogicalAndExpression::Or(item->InclusiveOrExpression_0))),
    {
        let item = match item {
            SemanticValue::InclusiveOrExpression(x) => x,
            _ => {
                return SemanticValue::Empty;
            },
        };
        SemanticValue::LogicalAndExpression(LogicalAndExpression::Or(item))
    }
}

impl LogicalOrExpression {
    /// `||`.
    pub fn make_or(or: SemanticValue, and: SemanticValue) -> (r: SemanticValue)
        requires
            or is LogicalOrExpression,
            and is LogicalAndExpression,
        ensures
            r == (SemanticValue::LogicalOrExpression(LogicalOrExpression::Or(Box::new(or->LogicalOrExpression_0), and->LogicalAndExpression_0))),
    {
        let or = match or {
            SemanticValue::LogicalOrExpression(x) => x,
            _ => {
                return SemanticValue::Empty;
            },
        };
        let or = Box::new(or);
        let and = match and {
            SemanticValue::LogicalAndExpression(x) => x,
            _ => {
                return SemanticValue::Empty;
            },
        };
        SemanticValue::LogicalOrExpression(LogicalOrExpression::Or(or, and))
    }

    /// A logical-and expression.
    pub fn make_and(item: SemanticValue) -> (r: SemanticValue)
        requires
            item is LogicalAndExpression,
        ensures
            r == (SemanticValue::LogicalOrExpression(LogicalOrExpression::And(item->LogicalAndExpression_0))),
    {
        let item = match item {
            SemanticValue::LogicalAndExpression(x) => x,
            _ => {
                return SemanticValue::Empty;
            },
        };
        SemanticValue::LogicalOrExpression(LogicalOrExpression::And(item))
    }
}

impl ConditionalExpression {
    /// `cond ? then : else`.
    pub fn make_cond(cond: SemanticValue, then_expr: SemanticValue, else_expr: SemanticValue) -> (r: SemanticValue)
        requires
            cond is LogicalOrExpression,
            then_expr is Expression,
            else_expr is ConditionalExpression,
        ensures
            r == (SemanticValue::ConditionalExpression(ConditionalExpression::Cond { cond: cond->LogicalOrExpression_0, then_expr: Box::new(then_expr->Expression_0), else_expr: Box::new(else_expr->ConditionalExpression_0) })),
    {
        let cond = match cond {
            SemanticValue::LogicalOrExpression(x) => x,
            _ => {
                return SemanticValue::Empty;
            },
        };
        let then_expr = match then_expr {
            SemanticValue::Expression(x) => x,
            _ => {
                return SemanticValue::Empty;
            },
        };
        let then_expr = Box::new(then_expr);
        let else_expr = match else_expr {
            SemanticValue::ConditionalExpression(x) => x,
            _ => {
                return SemanticValue::Empty;
            },
        };
        let else_expr = Box::new(else_expr);
        SemanticValue::ConditionalExpression(ConditionalExpression::Cond { cond: cond, then_expr: then_expr, else_expr: else_expr })
    }

    /// A logical-or expression.
    pub fn make_or(item: SemanticValue) -> (r: SemanticValue)
        requires
            item is LogicalOrExpression,
        ensures
            r == (SemanticValue::ConditionalExpression(ConditionalExpression::Or(item->LogicalOrExpression_0))),
    {
        let item = match item {
            SemanticValue::LogicalOrExpression(x) => x,
            _ => {
                return SemanticValue::Empty;
            },
        };
        SemanticValue::ConditionalExpression(ConditionalExpression::Or(item))
    }

    /// A conditional expression as a constant expression.
    pub fn make_constant(cond: SemanticValue) -> (r: SemanticValue)
        requires
            cond is ConditionalExpression,
        ensures
            r == (SemanticValue::ConstantExpression(ConstantExpression(cond->ConditionalExpression_0))),
    {
        let cond = match cond {
            SemanticValue::ConditionalExpression(x) => x,
            _ => {
                return SemanticValue::Empty;
            },
        };
        SemanticValue::ConstantExpression(ConstantExpression(cond))
    }
}

impl AssignmentExpression {
    /// A conditional expression.
    pub fn make_conditional(item: SemanticValue) -> (r: SemanticValue)
        requires
            item is ConditionalExpression,
        ensures
            r == (SemanticValue::AssignmentExpression(AssignmentExpression::Conditional(item->ConditionalExpression_0))),
    {
        let item = match item {
            SemanticValue::ConditionalExpression(x) => x,
            _ => {
                return SemanticValue::Empty;
            },
        };
        SemanticValue::AssignmentExpression(AssignmentExpression::Conditional(item))
    }

    /// An assignment.
    pub fn make_assign(lhs: SemanticValue, op: SemanticValue, rhs: SemanticValue) -> (r: SemanticValue)
        requires
            lhs is UnaryExpression,
            op is AssignmentOperator,
            rhs is AssignmentExpression,
        ensures
            r == (SemanticValue::AssignmentExpression(AssignmentExpression::Assign { lhs: lhs->UnaryExpression_0, op: op->AssignmentOperator_0, rhs: Box::new(rhs->AssignmentExpression_0) })),
    {
        let lhs = match lhs {
            SemanticValue::UnaryExpression(x) => x,
            _ => {
                return SemanticValue::Empty;
            },
        };
        let op = match op {
            SemanticValue::AssignmentOperator(x) => x,
            _ => {
                return SemanticValue::Empty;
            },
        };
        let rhs = match rhs {
            SemanticValue::AssignmentExpression(x) => x,
            _ => {
                return SemanticValue::Empty;
            },
        };
        let rhs = Box::new(rhs);
        SemanticValue::AssignmentExpression(AssignmentExpression::Assign { lhs: lhs, op: op, rhs: rhs })
    }
}

impl AssignmentOperator {
    /// The operator `=`.
    pub fn assign(item: SemanticValue) -> (r: SemanticValue)
        requires
            item is Token,
        ensures
            r == (SemanticValue::AssignmentOperator(AssignmentOperator::Assign(item->Token_0))),
    {
        let item = match item {
            SemanticValue::Token(x) => x,
            _ => {
                return SemanticValue::Empty;
            },
        };
        SemanticValue::AssignmentOperator(AssignmentOperator::Assign(item))
    }

    /// The operator `*=`.
    pub fn mul_assign(item: SemanticValue) -> (r: SemanticValue)
        requires
            item is Token,
        ensures
            r == (SemanticValue::AssignmentOperator(AssignmentOperator::MulAssign(item->Token_0))),
    {
        let item = match item {
            SemanticValue::Token(x) => x,
            _ => {
                return SemanticValue::Empty;
            },
        };
        SemanticValue::AssignmentOperator(AssignmentOperator::MulAssign(item))
    }

    /// The operator `/=`.
    pub fn div_assign(item: SemanticValue) -> (r: SemanticValue)
        requires
            item is Token,
        ensures
            r == (SemanticValue::AssignmentOperator(AssignmentOperator::DivAssign(item->Token_0))),
    {
        let item = match item {
            SemanticValue::Token(x) => x,
            _ => {
                return SemanticValue::Empty;
            },
        };
        SemanticValue::AssignmentOperator(AssignmentOperator::DivAssign(item))
    }

    /// The operator `%=`.
    pub fn mod_assign(item: SemanticValue) -> (r: SemanticValue)
        requires
            item is Token,
        ensures
            r == (SemanticValue::AssignmentOperator(AssignmentOperator::ModAssign(item->Token_0))),
    {
        let item = match item {
            SemanticValue::Token(x) => x,
            _ => {
                return SemanticValue::Empty;
            },
        };
        SemanticValue::AssignmentOperator(AssignmentOperator::ModAssign(item))
    }

    /// The operator `+=`.
    pub fn add_assign(item: SemanticValue) -> (r: SemanticValue)
        requires
            item is Token,
        ensures
            r == (SemanticValue::AssignmentOperator(AssignmentOperator::AddAssign(item->Token_0))),
    {
        let item = match item {
            SemanticValue::Token(x) => x,
            _ => {
                return SemanticValue::Empty;
            },
        };
        SemanticValue::AssignmentOperator(AssignmentOperator::AddAssign(item))
    }

    /// The operator `-=`.
    pub fn sub_assign(item: SemanticValue) -> (r: SemanticValue)
        requires
            item is Token,
        ensures
            r == (SemanticValue::AssignmentOperator(AssignmentOperator::SubAssign(item->Token_0))),
    {
        let item = match item {
            SemanticValue::Token(x) => x,
            _ => {
                return SemanticValue::Empty;
            },
        };
        SemanticValue::AssignmentOperator(AssignmentOperator::SubAssign(item))
    }

    /// The operator `<<=`.
    pub fn shl_assign(item: SemanticValue) -> (r: SemanticValue)
        requires
            item is Token,
        ensures
            r == (SemanticValue::AssignmentOperator(AssignmentOperator::ShlAssign(item->Token_0))),
    {
        let item = match item {
            SemanticValue::Token(x) => x,
            _ => {
                return SemanticValue::Empty;
            },
        };
        SemanticValue::AssignmentOperator(AssignmentOperator::ShlAssign(item))
    }

    /// The operator `>>=`.
    pub fn shr_assign(item: SemanticValue) -> (r: SemanticValue)
        requires
            item is Token,
        ensures
            r == (SemanticValue::AssignmentOperator(AssignmentOperator::ShrAssign(item->Token_0))),
    {
        let item = match item {
            SemanticValue::Token(x) => x,
            _ => {
                return SemanticValue::Empty;
            },
        };
        SemanticValue::AssignmentOperator(AssignmentOperator::ShrAssign(item))
    }

    /// The operator `&=`.
    pub fn and_assign(item: SemanticValue) -> (r: SemanticValue)
        requires
            item is Token,
        ensures
            r == (SemanticValue::AssignmentOperator(AssignmentOperator::AndAssign(item->Token_0))),
    {
        let item = match item {
            SemanticValue::Token(x) => x,
            _ => {
                return SemanticValue::Empty;
            },
        };
        SemanticValue::AssignmentOperator(AssignmentOperator::AndAssign(item))
    }

    /// The operator `^=`.
    pub fn xor_assign(item: SemanticValue) -> (r: SemanticValue)
        requires
            item is Token,
        ensures
            r == (SemanticValue::AssignmentOperator(AssignmentOperator::XorAssign(item->Token_0))),
    {
        let item = match item {
            SemanticValue::Token(x) => x,
            _ => {
                return SemanticValue::Empty;
            },
        };
        SemanticValue::AssignmentOperator(AssignmentOperator::XorAssign(item))
    }

    /// The operator `|=`.
    pub fn or_assign(item: SemanticValue) -> (r: SemanticValue)
        requires
            item is Token,
        ensures
            r == (SemanticValue::AssignmentOperator(AssignmentOperator::OrAssign(item->Token_0))),
    {
        let item = match item {
            SemanticValue::Token(x) => x,
            _ => {
                return SemanticValue::Empty;
            },
        };
        SemanticValue::AssignmentOperator(AssignmentOperator::OrAssign(item))
    }
}

impl Expression {
    /// One assignment expression.
    pub fn make_single(item: SemanticValue) -> (r: SemanticValue)
        requires
            item is AssignmentExpression,
        ensures
            r == (SemanticValue::Expression(Expression::Single(item->AssignmentExpression_0))),
    {
        let item = match item {
            SemanticValue::AssignmentExpression(x) => x,
            _ => {
                return SemanticValue::Empty;
            },
        };
        SemanticValue::Expression(Expression::Single(item))
    }

    /// A comma expression.
    pub fn make_comma(expr: SemanticValue, assign: SemanticValue) -> (r: SemanticValue)
        requires
            expr is Expression,
            assign is AssignmentExpression,
        ensures
            r == (SemanticValue::Expression(Expression::Comma(Box::new(expr->Expression_0), assign->AssignmentExpression_0))),
    {
        let expr = match expr {
            SemanticValue::Expression(x) => x,
            _ => {
                return SemanticValue::Empty;
            },
        };
        let expr = Box::new(expr);
        let assign = match assign {
            SemanticValue::AssignmentExpression(x) => x,
            _ => {
                return SemanticValue::Empty;
            },
        };
        SemanticValue::Expression(Expression::Comma(expr, assign))
    }
}

impl TypeName {
    /// A type name.
    pub fn make_type_name(specifiers: SemanticValue, abstract_declarator: SemanticValue) -> (r: SemanticValue)
        requires
            specifiers is SpecifierQualifierList,
            abstract_declarator is AbstractDeclaratorOpt,
        ensures
            r == (SemanticValue::TypeName(TypeName { specifiers: specifiers->SpecifierQualifierList_0, abstract_declarator: abstract_declarator->AbstractDeclaratorOpt_0 })),
    {
        let specifiers = match specifiers {
            SemanticValue::SpecifierQualifierList(x) => x,
            _ => {
                return SemanticValue::Empty;
            },
        };
        let abstract_declarator = match abstract_declarator {
            SemanticValue::AbstractDeclaratorOpt(x) => x,
            _ => {
                return SemanticValue::Empty;
            },
        };
        SemanticValue::TypeName(TypeName { specifiers: specifiers, abstract_declarator: abstract_declarator })
    }
}

impl Initializer {
    /// An expression initializer.
    pub fn make_assignment(item: SemanticValue) -> (r: SemanticValue)
        requires
            item is AssignmentExpression,
        ensures
            r == (SemanticValue::Initializer(Initializer::Assignment(item->AssignmentExpression_0))),
    {
        let item = match item {
            SemanticValue::AssignmentExpression(x) => x,
            _ => {
                return SemanticValue::Empty;
            },
        };
        SemanticValue::Initializer(Initializer::Assignment(item))
    }

    /// A braced initializer list.
    pub fn make_list(item: SemanticValue) -> (r: SemanticValue)
        requires
            item is InitializerList,
        ensures
            r == (SemanticValue::Initializer(Initializer::List(item->InitializerList_0))),
    {
        let item = match item {
            SemanticValue::InitializerList(x) => x,
            _ => {
                return SemanticValue::Empty;
            },
        };
        SemanticValue::Initializer(Initializer::List(item))
    }
}

impl AbstractDeclarator {
    /// A pointer alone.
    pub fn make_pointer(item: SemanticValue) -> (r: SemanticValue)
        requires
            item is Pointer,
        ensures
            r == (SemanticValue::AbstractDeclarator(AbstractDeclarator::Pointer(item->Pointer_0))),
    {
        let item = match item {
            SemanticValue::Pointer(x) => x,
            _ => {
                return SemanticValue::Empty;
            },
        };
        SemanticValue::AbstractDeclarator(AbstractDeclarator::Pointer(item))
    }

    /// A direct abstract declarator with its pointer, if any.
    pub fn make_direct(pointer: SemanticValue, direct: SemanticValue) -> (r: SemanticValue)
        requires
            pointer is PointerOpt,
            direct is DirectAbstractDeclarator,
        ensures
            r == (SemanticValue::AbstractDeclarator(AbstractDeclarator::Direct { pointer: pointer->PointerOpt_0, direct: direct->DirectAbstractDeclarator_0 })),
    {
        let pointer = match pointer {
            SemanticValue::PointerOpt(x) => x,
            _ => {
                return SemanticValue::Empty;
            },
        };
        let direct = match direct {
            SemanticValue::DirectAbstractDeclarator(x) => x,
            _ => {
                return SemanticValue::Empty;
            },
        };
        SemanticValue::AbstractDeclarator(AbstractDeclarator::Direct { pointer: pointer, direct: direct })
    }
}

impl DirectAbstractDeclarator {
    /// An abstract declarator in parentheses.
    pub fn make_paren(item: SemanticValue) -> (r: SemanticValue)
        requires
            item is AbstractDeclarator,
        ensures
            r == (SemanticValue::DirectAbstractDeclarator(DirectAbstractDeclarator::Paren(Box::new(item->AbstractDeclarator_0)))),
    {
        let item = match item {
            SemanticValue::AbstractDeclarator(x) => x,
            _ => {
                return SemanticValue::Empty;
            },
        };
        let item = Box::new(item);
        SemanticValue::DirectAbstractDeclarator(DirectAbstractDeclarator::Paren(item))
    }

    /// An array part.
    pub fn make_array(item: SemanticValue) -> (r: SemanticValue)
        requires
            item is ConstantExpressionOpt,
        ensures
            r == (SemanticValue::DirectAbstractDeclarator(DirectAbstractDeclarator::Array(item->ConstantExpressionOpt_0))),
    {
        let item = match item {
            SemanticValue::ConstantExpressionOpt(x) => x,
            _ => {
                return SemanticValue::Empty;
            },
        };
        SemanticValue::DirectAbstractDeclarator(DirectAbstractDeclarator::Array(item))
    }

    /// An array part after another part.
    pub fn make_array_nested(decl: SemanticValue, constexpr: SemanticValue) -> (r: SemanticValue)
        requires
            decl is DirectAbstractDeclarator,
            constexpr is ConstantExpressionOpt,
        ensures
            r == (SemanticValue::DirectAbstractDeclarator(DirectAbstractDeclarator::ArrayNested(Box::new(decl->DirectAbstractDeclarator_0), constexpr->ConstantExpressionOpt_0))),
    {
        let decl = match decl {
            SemanticValue::DirectAbstractDeclarator(x) => x,
            _ => {
                return SemanticValue::Empty;
            },
        };
        let decl = Box::new(decl);
        let constexpr = match constexpr {
            SemanticValue::ConstantExpressionOpt(x) => x,
            _ => {
                return SemanticValue::Empty;
            },
        };
        SemanticValue::DirectAbstractDeclarator(DirectAbstractDeclarator::ArrayNested(decl, constexpr))
    }

    /// A function part.
    pub fn make_func(item: SemanticValue) -> (r: SemanticValue)
        requires
            item is ParameterTypeListOpt,
        ensures
            r == (SemanticValue::DirectAbstractDeclarator(DirectAbstractDeclarator::Func(item->ParameterTypeListOpt_0))),
    {
        let item = match item {
            SemanticValue::ParameterTypeListOpt(x) => x,
            _ => {
                return SemanticValue::Empty;
            },
        };
        SemanticValue::DirectAbstractDeclarator(DirectAbstractDeclarator::Func(item))
    }

    /// A function part after another part.
    pub fn make_func_nested(decl: SemanticValue, param_type_list_opt: SemanticValue) -> (r: SemanticValue)
        requires
            decl is DirectAbstractDeclarator,
            param_type_list_opt is ParameterTypeListOpt,
        ensures
            r == (SemanticValue::DirectAbstractDeclarator(DirectAbstractDeclarator::FuncNested(Box::new(decl->DirectAbstractDeclarator_0), param_type_list_opt->ParameterTypeListOpt_0))),
    {
        let decl = match decl {
            SemanticValue::DirectAbstractDeclarator(x) => x,
            _ => {
                return SemanticValue::Empty;
            },
        };
        let decl = Box::new(decl);
        let param_type_list_opt = match param_type_list_opt {
            SemanticValue::ParameterTypeListOpt(x) => x,
            _ => {
                return SemanticValue::Empty;
            },
        };
        SemanticValue::DirectAbstractDeclarator(DirectAbstractDeclarator::FuncNested(decl, param_type_list_opt))
    }
}

impl ParameterTypeList {
    /// Parameters without `...`.
    pub fn make_params(item: SemanticValue) -> (r: SemanticValue)
        requires
            item is ParameterList,
        ensures
            r == (SemanticValue::ParameterTypeList(ParameterTypeList::Params(item->ParameterList_0))),
    {
        let item = match item {
            SemanticValue::ParameterList(x) => x,
            _ => {
                return SemanticValue::Empty;
            },
        };
        SemanticValue::ParameterTypeList(ParameterTypeList::Params(item))
    }

    /// Parameters followed by `...`.
    pub fn make_variadic(item: SemanticValue) -> (r: SemanticValue)
        requires
            item is ParameterList,
        ensures
            r == (SemanticValue::ParameterTypeList(ParameterTypeList::Variadic(item->ParameterList_0))),
    {
        let item = match item {
            SemanticValue::ParameterList(x) => x,
            _ => {
                return SemanticValue::Empty;
            },
        };
        SemanticValue::ParameterTypeList(ParameterTypeList::Variadic(item))
    }
}

impl ParameterDeclaration {
    /// A parameter with a declarator.
    pub fn make_declarator(specifiers: SemanticValue, declarator: SemanticValue) -> (r: SemanticValue)
        requires
            specifiers is DeclarationSpecifiers,
            declarator is Declarator,
        ensures
            r == (SemanticValue::ParameterDeclaration(ParameterDeclaration::WithDeclarator { specifiers: specifiers->DeclarationSpecifiers_0, declarator: declarator->Declarator_0 })),
    {
        let specifiers = match specifiers {
            SemanticValue::DeclarationSpecifiers(x) => x,
            _ => {
                return SemanticValue::Empty;
            },
        };
        let declarator = match declarator {
            SemanticValue::Declarator(x) => x,
            _ => {
                return SemanticValue::Empty;
            },
        };
        SemanticValue::ParameterDeclaration(ParameterDeclaration::WithDeclarator { specifiers: specifiers, declarator: declarator })
    }

    /// A parameter with an abstract declarator, if any.
    pub fn make_abstract(specifiers: SemanticValue, abstract_declarator: SemanticValue) -> (r: SemanticValue)
        requires
            specifiers is DeclarationSpecifiers,
            abstract_declarator is AbstractDeclaratorOpt,
        ensures
            r == (SemanticValue::ParameterDeclaration(ParameterDeclaration::Abstract { specifiers: specifiers->DeclarationSpecifiers_0, abstract_declarator: abstract_declarator->AbstractDeclaratorOpt_0 })),
    {
        let specifiers = match specifiers {
            SemanticValue::DeclarationSpecifiers(x) => x,
            _ => {
                return SemanticValue::Empty;
            },
        };
        let abstract_declarator = match abstract_declarator {
            SemanticValue::AbstractDeclaratorOpt(x) => x,
            _ => {
                return SemanticValue::Empty;
            },
        };
        SemanticValue::ParameterDeclaration(ParameterDeclaration::Abstract { specifiers: specifiers, abstract_declarator: abstract_declarator })
    }
}

impl SpecifierQualifierList {
    /// A type specifier before the rest of the list, if any.
    pub fn make_type_specifier(type_specifier: SemanticValue, speci_qual_list_opt: SemanticValue) -> (r: SemanticValue)
        requires
            type_specifier is TypeSpecifier,
            speci_qual_list_opt is SpecifierQualifierListOpt,
        ensures
            r == (SemanticValue::SpecifierQualifierList(SpecifierQualifierList::TypeSpecifier(type_specifier->TypeSpecifier_0, (match speci_qual_list_opt->SpecifierQualifierListOpt_0 { Some(x) => Some(Box::new(x)), None => None })))),
    {
        let type_specifier = match type_specifier {
            SemanticValue::TypeSpecifier(x) => x,
            _ => {
                return SemanticValue::Empty;
            },
        };
        let speci_qual_list_opt = match speci_qual_list_opt {
            SemanticValue::SpecifierQualifierListOpt(x) => x,
            _ => {
                return SemanticValue::Empty;
            },
        };
        let speci_qual_list_opt = match speci_qual_list_opt {
            Some(x) => Some(Box::new(x)),
            None => None,
        };
        SemanticValue::SpecifierQualifierList(SpecifierQualifierList::TypeSpecifier(type_specifier, speci_qual_list_opt))
    }

    /// A type qualifier before the rest of the list, if any.
    pub fn make_type_qualifier(type_qualifier: SemanticValue, speci_qual_list_opt: SemanticValue) -> (r: SemanticValue)
        requires
            type_qualifier is TypeQualifier,
            speci_qual_list_opt is SpecifierQualifierListOpt,
        ensures
            r == (SemanticValue::SpecifierQualifierList(SpecifierQualifierList::TypeQualifier(type_qualifier->TypeQualifier_0, (match speci_qual_list_opt->SpecifierQualifierListOpt_0 { Some(x) => Some(Box::new(x)), None => None })))),
    {
        let type_qualifier = match type_qualifier {
            SemanticValue::TypeQualifier(x) => x,
            _ => {
                return SemanticValue::Empty;
            },
        };
        let speci_qual_list_opt = match speci_qual_list_opt {
            SemanticValue::SpecifierQualifierListOpt(x) => x,
            _ => {
                return SemanticValue::Empty;
            },
        };
        let speci_qual_list_opt = match speci_qual_list_opt {
            Some(x) => Some(Box::new(x)),
            None => None,
        };
        SemanticValue::SpecifierQualifierList(SpecifierQualifierList::TypeQualifier(type_qualifier, speci_qual_list_opt))
    }
}

impl DeclarationList {
    /// A list of one declaration.
    pub fn make_decl_list(item: SemanticValue) -> (r: SemanticValue)
        requires
            item is Declaration,
        ensures
            r matches SemanticValue::DeclarationList(l) && l.0@ == seq![item->Declaration_0],
    {
        let item = match item {
            SemanticValue::Declaration(x) => x,
            _ => {
                return SemanticValue::Empty;
            },
        };
        SemanticValue::DeclarationList(DeclarationList(vec![item]))
    }

    /// Appends a declaration to the list.
    pub fn insert(list: SemanticValue, decl: SemanticValue) -> (r: SemanticValue)
        requires
            list is DeclarationList,
            decl is Declaration,
        ensures
            r matches SemanticValue::DeclarationList(l) && l.0@ == list->DeclarationList_0.0@.push(decl->Declaration_0),
    {
        let list = match list {
            SemanticValue::DeclarationList(x) => x,
            _ => {
                return SemanticValue::Empty;
            },
        };
        let decl = match decl {
            SemanticValue::Declaration(x) => x,
            _ => {
                return SemanticValue::Empty;
            },
        };
        SemanticValue::DeclarationList(DeclarationList(list_push(list.0, decl)))
    }
}

impl InitDeclaratorList {
    /// A list of one declarator.
    pub fn make_init_decl_list(item: SemanticValue) -> (r: SemanticValue)
        requires
            item is InitDeclarator,
        ensures
            r matches SemanticValue::InitDeclaratorList(l) && l.0@ == seq![item->InitDeclarator_0],
    {
        let item = match item {
            SemanticValue::InitDeclarator(x) => x,
            _ => {
                return SemanticValue::Empty;
            },
        };
        SemanticValue::InitDeclaratorList(InitDeclaratorList(vec![item]))
    }

    /// Appends a declarator to the list.
    pub fn insert(list: SemanticValue, decl: SemanticValue) -> (r: SemanticValue)
        requires
            list is InitDeclaratorList,
            decl is InitDeclarator,
        ensures
            r matches SemanticValue::InitDeclaratorList(l) && l.0@ == list->InitDeclaratorList_0.0@.push(decl->InitDeclarator_0),
    {
        let list = match list {
            SemanticValue::InitDeclaratorList(x) => x,
            _ => {
                return SemanticValue::Empty;
            },
        };
        let decl = match decl {
            SemanticValue::InitDeclarator(x) => x,
            _ => {
                return SemanticValue::Empty;
            },
        };
        SemanticValue::InitDeclaratorList(InitDeclaratorList(list_push(list.0, decl)))
    }
}

impl InitializerList {
    /// A list of one initializer.
    pub fn make(item: SemanticValue) -> (r: SemanticValue)
        requires
            item is Initializer,
        ensures
            r matches SemanticValue::InitializerList(l) && l.0@ == seq![item->Initializer_0],
    {
        let item = match item {
            SemanticValue::Initializer(x) => x,
            _ => {
                return SemanticValue::Empty;
            },
        };
        SemanticValue::InitializerList(InitializerList(vec![item]))
    }

    /// Appends an initializer to the list.
    pub fn insert(list: SemanticValue, decl: SemanticValue) -> (r: SemanticValue)
        requires
            list is InitializerList,
            decl is Initializer,
        ensures
            r matches SemanticValue::InitializerList(l) && l.0@ == list->InitializerList_0.0@.push(decl->Initializer_0),
    {
        let list = match list {
            SemanticValue::InitializerList(x) => x,
            _ => {
                return SemanticValue::Empty;
            },
        };
        let decl = match decl {
            SemanticValue::Initializer(x) => x,
            _ => {
                return SemanticValue::Empty;
            },
        };
        SemanticValue::InitializerList(InitializerList(list_push(list.0, decl)))
    }
}

impl IdentifierList {
    /// A list of one identifier.
    pub fn make_list(item: SemanticValue) -> (r: SemanticValue)
        requires
            item is Token,
        ensures
            r matches SemanticValue::IdentifierList(l) && l.0@ == seq![item->Token_0],
    {
        let item = match item {
            SemanticValue::Token(x) => x,
            _ => {
                return SemanticValue::Empty;
            },
        };
        SemanticValue::IdentifierList(IdentifierList(vec![item]))
    }

    /// Appends an identifier to the list.
    pub fn insert(list: SemanticValue, decl: SemanticValue) -> (r: SemanticValue)
        requires
            list is IdentifierList,
            decl is Token,
        ensures
            r matches SemanticValue::IdentifierList(l) && l.0@ == list->IdentifierList_0.0@.push(decl->Token_0),
    {
        let list = match list {
            SemanticValue::IdentifierList(x) => x,
            _ => {
                return SemanticValue::Empty;
            },
        };
        let decl = match decl {
            SemanticValue::Token(x) => x,
            _ => {
                return SemanticValue::Empty;
            },
        };
        SemanticValue::IdentifierList(IdentifierList(list_push(list.0, decl)))
    }
}

impl DeclarationList {
    /// An empty list of declarations.
    pub fn empty() -> (r: DeclarationList)
        ensures
            r.0@ == Seq::<Declaration>::empty(),
    {
        DeclarationList(Vec::new())
    }
}

impl Pointer {
    /// A `*` with its qualifier list (absent: none) and the pointer after
    /// it, if any.
    pub fn make_pointer(type_qual_list: SemanticValue, pointer: SemanticValue) -> (r: SemanticValue)
        requires
            type_qual_list is TypeQualifierList || type_qual_list is Empty,
            pointer is Pointer || pointer is Empty,
        ensures
            r matches SemanticValue::Pointer(Pointer::Single(q, p)) && q@ == (if type_qual_list is TypeQualifierList {
                type_qual_list->TypeQualifierList_0@
            } else {
                Seq::empty()
            }) && p == (if pointer is Pointer {
                Some(Box::new(pointer->Pointer_0))
            } else {
                None
            }),
    {
        let quals = match type_qual_list {
            SemanticValue::TypeQualifierList(x) => x,
            _ => Vec::new(),
        };
        let pointer = match pointer {
            SemanticValue::Pointer(x) => Some(Box::new(x)),
            _ => None,
        };
        SemanticValue::Pointer(Pointer::Single(quals, pointer))
    }
}

/// A list of one struct declaration.
pub fn make_struct_declaration_list(item: SemanticValue) -> (r: SemanticValue)
    requires
        item is StructDeclaration,
    ensures
        r matches SemanticValue::StructDeclarationList(l) && l@ == seq![item->StructDeclaration_0],
{
    let item = match item {
        SemanticValue::StructDeclaration(x) => x,
        _ => {
            return SemanticValue::Empty;
        },
    };
    SemanticValue::StructDeclarationList(vec![item])
}

/// Appends a struct declaration to the list.
pub fn insert_struct_declaration_list(list: SemanticValue, decl: SemanticValue) -> (r: SemanticValue)
    requires
        list is StructDeclarationList,
        decl is StructDeclaration,
    ensures
        r matches SemanticValue::StructDeclarationList(l) && l@ == list->StructDeclarationList_0@.push(decl->StructDeclaration_0),
{
    let list = match list {
        SemanticValue::StructDeclarationList(x) => x,
        _ => {
            return SemanticValue::Empty;
        },
    };
    let decl = match decl {
        SemanticValue::StructDeclaration(x) => x,
        _ => {
            return SemanticValue::Empty;
        },
    };
    SemanticValue::StructDeclarationList(list_push(list, decl))
}

/// A list of one type qualifier.
pub fn make_type_qualifier_list(item: SemanticValue) -> (r: SemanticValue)
    requires
        item is TypeQualifier,
    ensures
        r matches SemanticValue::TypeQualifierList(l) && l@ == seq![item->TypeQualifier_0],
{
    let item = match item {
        SemanticValue::TypeQualifier(x) => x,
        _ => {
            return SemanticValue::Empty;
        },
    };
    SemanticValue::TypeQualifierList(vec![item])
}

/// Appends a type qualifier to the list.
pub fn insert_type_qualifier_list(list: SemanticValue, decl: SemanticValue) -> (r: SemanticValue)
    requires
        list is TypeQualifierList,
        decl is TypeQualifier,
    ensures
        r matches SemanticValue::TypeQualifierList(l) && l@ == list->TypeQualifierList_0@.push(decl->TypeQualifier_0),
{
    let list = match list {
        SemanticValue::TypeQualifierList(x) => x,
        _ => {
            return SemanticValue::Empty;
        },
    };
    let decl = match decl {
        SemanticValue::TypeQualifier(x) => x,
        _ => {
            return SemanticValue::Empty;
        },
    };
    SemanticValue::TypeQualifierList(list_push(list, decl))
}

/// A list of one struct declarator.
pub fn make_struct_declarator_list(item: SemanticValue) -> (r: SemanticValue)
    requires
        item is StructDeclarator,
    ensures
        r matches SemanticValue::StructDeclaratorList(l) && l@ == seq![item->StructDeclarator_0],
{
    let item = match item {
        SemanticValue::StructDeclarator(x) => x,
        _ => {
            return SemanticValue::Empty;
        },
    };
    SemanticValue::StructDeclaratorList(vec![item])
}

/// Appends a struct declarator to the list.
pub fn insert_struct_declarator_list(list: SemanticValue, decl: SemanticValue) -> (r: SemanticValue)
    requires
        list is StructDeclaratorList,
        decl is StructDeclarator,
    ensures
        r matches SemanticValue::StructDeclaratorList(l) && l@ == list->StructDeclaratorList_0@.push(decl->StructDeclarator_0),
{
    let list = match list {
        SemanticValue::StructDeclaratorList(x) => x,
        _ => {
            return SemanticValue::Empty;
        },
    };
    let decl = match decl {
        SemanticValue::StructDeclarator(x) => x,
        _ => {
            return SemanticValue::Empty;
        },
    };
    SemanticValue::StructDeclaratorList(list_push(list, decl))
}

/// A list of one enumerator.
pub fn make_enumerator_list(item: SemanticValue) -> (r: SemanticValue)
    requires
        item is Enumerator,
    ensures
        r matches SemanticValue::EnumeratorList(l) && l@ == seq![item->Enumerator_0],
{
    let item = match item {
        SemanticValue::Enumerator(x) => x,
        _ => {
            return SemanticValue::Empty;
        },
    };
    SemanticValue::EnumeratorList(vec![item])
}

/// Appends a enumerator to the list.
pub fn insert_enumerator_list(list: SemanticValue, decl: SemanticValue) -> (r: SemanticValue)
    requires
        list is EnumeratorList,
        decl is Enumerator,
    ensures
        r matches SemanticValue::EnumeratorList(l) && l@ == list->EnumeratorList_0@.push(decl->Enumerator_0),
{
    let list = match list {
        SemanticValue::EnumeratorList(x) => x,
        _ => {
            return SemanticValue::Empty;
        },
    };
    let decl = match decl {
        SemanticValue::Enumerator(x) => x,
        _ => {
            return SemanticValue::Empty;
        },
    };
    SemanticValue::EnumeratorList(list_push(list, decl))
}

/// A list of one parameter declaration.
pub fn make_parameter_list(item: SemanticValue) -> (r: SemanticValue)
    requires
        item is ParameterDeclaration,
    ensures
        r matches SemanticValue::ParameterList(l) && l@ == seq![item->ParameterDeclaration_0],
{
    let item = match item {
        SemanticValue::ParameterDeclaration(x) => x,
        _ => {
            return SemanticValue::Empty;
        },
    };
    SemanticValue::ParameterList(vec![item])
}

/// Appends a parameter declaration to the list.
pub fn insert_parameter_list(list: SemanticValue, decl: SemanticValue) -> (r: SemanticValue)
    requires
        list is ParameterList,
        decl is ParameterDeclaration,
    ensures
        r matches SemanticValue::ParameterList(l) && l@ == list->ParameterList_0@.push(decl->ParameterDeclaration_0),
{
    let list = match list {
        SemanticValue::ParameterList(x) => x,
        _ => {
            return SemanticValue::Empty;
        },
    };
    let decl = match decl {
        SemanticValue::ParameterDeclaration(x) => x,
        _ => {
            return SemanticValue::Empty;
        },
    };
    SemanticValue::ParameterList(list_push(list, decl))
}

/// A list of one block item.
pub fn make_block_item(item: SemanticValue) -> (r: SemanticValue)
    requires
        item is BlockItem,
    ensures
        r matches SemanticValue::BlockItemList(l) && l@ == seq![item->BlockItem_0],
{
    let item = match item {
        SemanticValue::BlockItem(x) => x,
        _ => {
            return SemanticValue::Empty;
        },
    };
    SemanticValue::BlockItemList(vec![item])
}

/// Appends a block item to the list.
pub fn insert_block_item(list: SemanticValue, decl: SemanticValue) -> (r: SemanticValue)
    requires
        list is BlockItemList,
        decl is BlockItem,
    ensures
        r matches SemanticValue::BlockItemList(l) && l@ == list->BlockItemList_0@.push(decl->BlockItem_0),
{
    let list = match list {
        SemanticValue::BlockItemList(x) => x,
        _ => {
            return SemanticValue::Empty;
        },
    };
    let decl = match decl {
        SemanticValue::BlockItem(x) => x,
        _ => {
            return SemanticValue::Empty;
        },
    };
    SemanticValue::BlockItemList(list_push(list, decl))
}

/// A list of one token.
pub fn make_string(item: SemanticValue) -> (r: SemanticValue)
    requires
        item is Token,
    ensures
        r matches SemanticValue::String(l) && l@ == seq![item->Token_0],
{
    let item = match item {
        SemanticValue::Token(x) => x,
        _ => {
            return SemanticValue::Empty;
        },
    };
    SemanticValue::String(vec![item])
}

/// Appends a token to the list.
pub fn insert_string(list: SemanticValue, decl: SemanticValue) -> (r: SemanticValue)
    requires
        list is String,
        decl is Token,
    ensures
        r matches SemanticValue::String(l) && l@ == list->String_0@.push(decl->Token_0),
{
    let list = match list {
        SemanticValue::String(x) => x,
        _ => {
            return SemanticValue::Empty;
        },
    };
    let decl = match decl {
        SemanticValue::Token(x) => x,
        _ => {
            return SemanticValue::Empty;
        },
    };
    SemanticValue::String(list_push(list, decl))
}

/// A list of one assignment expression.
pub fn makeargument_expression_list(item: SemanticValue) -> (r: SemanticValue)
    requires
        item is AssignmentExpression,
    ensures
        r matches SemanticValue::ArgumentExpressionList(l) && l@ == seq![item->AssignmentExpression_0],
{
    let item = match item {
        SemanticValue::AssignmentExpression(x) => x,
        _ => {
            return SemanticValue::Empty;
        },
    };
    SemanticValue::ArgumentExpressionList(vec![item])
}

/// Appends a assignment expression to the list.
pub fn insert_argument_expression_list(list: SemanticValue, decl: SemanticValue) -> (r: SemanticValue)
    requires
        list is ArgumentExpressionList,
        decl is AssignmentExpression,
    ensures
        r matches SemanticValue::ArgumentExpressionList(l) && l@ == list->ArgumentExpressionList_0@.push(decl->AssignmentExpression_0),
{
    let list = match list {
        SemanticValue::ArgumentExpressionList(x) => x,
        _ => {
            return SemanticValue::Empty;
        },
    };
    let decl = match decl {
        SemanticValue::AssignmentExpression(x) => x,
        _ => {
            return SemanticValue::Empty;
        },
    };
    SemanticValue::ArgumentExpressionList(list_push(list, decl))
}

/// Wraps a present declaration list.
pub fn make_declaration_list_opt(item: SemanticValue) -> (r: SemanticValue)
    requires
        item is DeclarationList,
    ensures
        r == SemanticValue::DeclarationListOpt(Some(item->DeclarationList_0)),
{
    let item = match item {
        SemanticValue::DeclarationList(x) => x,
        _ => {
            return SemanticValue::Empty;
        },
    };
    SemanticValue::DeclarationListOpt(Some(item))
}

/// Wraps a present init declarator list.
pub fn make_init_declarator_list_opt(item: SemanticValue) -> (r: SemanticValue)
    requires
        item is InitDeclaratorList,
    ensures
        r == SemanticValue::InitDeclaratorListOpt(Some(item->InitDeclaratorList_0)),
{
    let item = match item {
        SemanticValue::InitDeclaratorList(x) => x,
        _ => {
            return SemanticValue::Empty;
        },
    };
    SemanticValue::InitDeclaratorListOpt(Some(item))
}

/// Wraps a present declaration specifiers.
pub fn make_declarator_list_opt(item: SemanticValue) -> (r: SemanticValue)
    requires
        item is DeclarationSpecifiers,
    ensures
        r == SemanticValue::DeclarationSpecifiersOpt(Some(item->DeclarationSpecifiers_0)),
{
    let item = match item {
        SemanticValue::DeclarationSpecifiers(x) => x,
        _ => {
            return SemanticValue::Empty;
        },
    };
    SemanticValue::DeclarationSpecifiersOpt(Some(item))
}

/// Wraps a present pointer.
pub fn make_pointer_opt(item: SemanticValue) -> (r: SemanticValue)
    requires
        item is Pointer,
    ensures
        r == SemanticValue::PointerOpt(Some(item->Pointer_0)),
{
    let item = match item {
        SemanticValue::Pointer(x) => x,
        _ => {
            return SemanticValue::Empty;
        },
    };
    SemanticValue::PointerOpt(Some(item))
}

/// Wraps a present token.
pub fn make_identifier_opt(item: SemanticValue) -> (r: SemanticValue)
    requires
        item is Token,
    ensures
        r == SemanticValue::IdentifierOpt(Some(item->Token_0)),
{
    let item = match item {
        SemanticValue::Token(x) => x,
        _ => {
            return SemanticValue::Empty;
        },
    };
    SemanticValue::IdentifierOpt(Some(item))
}

/// Wraps a present specifier qualifier list.
pub fn make_specifier_qualifier_list_opt(item: SemanticValue) -> (r: SemanticValue)
    requires
        item is SpecifierQualifierList,
    ensures
        r == SemanticValue::SpecifierQualifierListOpt(Some(item->SpecifierQualifierList_0)),
{
    let item = match item {
        SemanticValue::SpecifierQualifierList(x) => x,
        _ => {
            return SemanticValue::Empty;
        },
    };
    SemanticValue::SpecifierQualifierListOpt(Some(item))
}

/// Wraps a present constant expression.
pub fn make_constant_expression_opt(item: SemanticValue) -> (r: SemanticValue)
    requires
        item is ConstantExpression,
    ensures
        r == SemanticValue::ConstantExpressionOpt(Some(item->ConstantExpression_0)),
{
    let item = match item {
        SemanticValue::ConstantExpression(x) => x,
        _ => {
            return SemanticValue::Empty;
        },
    };
    SemanticValue::ConstantExpressionOpt(Some(item))
}

/// Wraps a present identifier list.
pub fn make_identifier_list_opt(item: SemanticValue) -> (r: SemanticValue)
    requires
        item is IdentifierList,
    ensures
        r == SemanticValue::IdentifierListOpt(Some(item->IdentifierList_0)),
{
    let item = match item {
        SemanticValue::IdentifierList(x) => x,
        _ => {
            return SemanticValue::Empty;
        },
    };
    SemanticValue::IdentifierListOpt(Some(item))
}

/// Wraps a present abstract declarator.
pub fn make_abstract_declarator_opt(item: SemanticValue) -> (r: SemanticValue)
    requires
        item is AbstractDeclarator,
    ensures
        r == SemanticValue::AbstractDeclaratorOpt(Some(item->AbstractDeclarator_0)),
{
    let item = match item {
        SemanticValue::AbstractDeclarator(x) => x,
        _ => {
            return SemanticValue::Empty;
        },
    };
    SemanticValue::AbstractDeclaratorOpt(Some(item))
}

/// Wraps a present parameter type list.
pub fn make_parameter_type_list_opt(item: SemanticValue) -> (r: SemanticValue)
    requires
        item is ParameterTypeList,
    ensures
        r == SemanticValue::ParameterTypeListOpt(Some(item->ParameterTypeList_0)),
{
    let item = match item {
        SemanticValue::ParameterTypeList(x) => x,
        _ => {
            return SemanticValue::Empty;
        },
    };
    SemanticValue::ParameterTypeListOpt(Some(item))
}

/// Wraps a present expression.
pub fn make_expression_opt(item: SemanticValue) -> (r: SemanticValue)
    requires
        item is Expression,
    ensures
        r == SemanticValue::ExpressionOpt(Some(item->Expression_0)),
{
    let item = match item {
        SemanticValue::Expression(x) => x,
        _ => {
            return SemanticValue::Empty;
        },
    };
    SemanticValue::ExpressionOpt(Some(item))
}

/// Wraps a present argument expression list.
pub fn make_argument_expression_list_opt(item: SemanticValue) -> (r: SemanticValue)
    requires
        item is ArgumentExpressionList,
    ensures
        r == SemanticValue::ArgumentExpressionListOpt(Some(item->ArgumentExpressionList_0)),
{
    let item = match item {
        SemanticValue::ArgumentExpressionList(x) => x,
        _ => {
            return SemanticValue::Empty;
        },
    };
    SemanticValue::ArgumentExpressionListOpt(Some(item))
}

} // verus!
