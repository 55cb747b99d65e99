//! Building the nodes of statements, expressions and constants from the
//! parts the grammar rules hand over.
use crate::types::ast::ast_nodes::{
    assign_kind, binary_kind, spec_constant_kind, spec_is_lvalue, AssignOp, AssignOpKind, BinaryOp, BinaryOpKind,
    Block, BlockItem, Constant, ConstantKind, DeclStmt, Expression, ExpressionKind, ExternalDeclaration,
    FunctionDefinition, Initializer, Statement, StatementKind, TranslationUnit, UnaryOp, UnaryOpKind,
};
use crate::types::lex::token::{into_text, text_of, Token, TokenKind};
use crate::types::span::{spec_merge, Span};
use vstd::prelude::*;

verus! {

/// The unary operator a token kind stands for, if any.
pub open spec fn unary_kind(kind: TokenKind) -> Option<UnaryOpKind> {
    match kind {
        TokenKind::OpBitand => Some(UnaryOpKind::AddressOf),
        TokenKind::OpTimes => Some(UnaryOpKind::Deref),
        TokenKind::OpPlus => Some(UnaryOpKind::Plus),
        TokenKind::OpMinus => Some(UnaryOpKind::Minus),
        TokenKind::OpBitNot => Some(UnaryOpKind::BitNot),
        TokenKind::OpNot => Some(UnaryOpKind::LogicalNot),
        _ => None,
    }
}

/// Each operator token stands for the unary operator of the same name, and
/// every other token kind for none.
pub proof fn lemma_unary_kind_table()
    ensures
        unary_kind(TokenKind::OpBitand) == Some(UnaryOpKind::AddressOf),
        unary_kind(TokenKind::OpTimes) == Some(UnaryOpKind::Deref),
        unary_kind(TokenKind::OpPlus) == Some(UnaryOpKind::Plus),
        unary_kind(TokenKind::OpMinus) == Some(UnaryOpKind::Minus),
        unary_kind(TokenKind::OpBitNot) == Some(UnaryOpKind::BitNot),
        unary_kind(TokenKind::OpNot) == Some(UnaryOpKind::LogicalNot),
        forall|k: TokenKind|
            !(k == TokenKind::OpBitand
                || k == TokenKind::OpTimes
                || k == TokenKind::OpPlus
                || k == TokenKind::OpMinus
                || k == TokenKind::OpBitNot
                || k == TokenKind::OpNot
            ) ==> #[trigger] unary_kind(k) is None,
{
}

/// The value of a `case` label: the integer or character of a literal.
pub open spec fn case_value(e: Expression) -> Option<i64> {
    match e.kind {
        ExpressionKind::Literal(c) => match c.kind {
            ConstantKind::Int(x) => Some(x),
            ConstantKind::Char(x) => Some(x as i64),
            _ => None,
        },
        _ => None,
    }
}

impl Statement {
    /// `label: stmt`, from the label's token to the end of the statement.
    pub fn make_label(ident: Token, stmt: Statement) -> (r: Statement)
        requires
            ident.value is String,
        ensures
            r.span == spec_merge(ident.span, stmt.span),
            r.kind matches StatementKind::Labeled { label, stmt: s } && label@ == text_of(ident) && *s == stmt,
    {
        let span = ident.span.merge(&stmt.span);
        let label = into_text(ident);
        let kind = StatementKind::Labeled { label, stmt: Box::new(stmt) };
        Self::new(kind, span)
    }

    /// `case value: stmt`; the value must be an integer or character
    /// literal.
    pub fn make_case(kw_case: Token, constexpr: Box<Expression>, stmt: Statement) -> (r: Statement)
        requires
            case_value(*constexpr) is Some,
        ensures
            r.span == spec_merge(kw_case.span, stmt.span),
            r.kind matches StatementKind::Case { value, stmt: s } && value == case_value(*constexpr).unwrap() && *s
                == stmt,
    {
        let span = kw_case.span.merge(&stmt.span);
        let value = match &constexpr.kind {
            ExpressionKind::Literal(constant) => match constant.kind {
                ConstantKind::Int(x) => x,
                ConstantKind::Char(x) => x as i64,
                _ => 0,
            },
            _ => 0,
        };
        let kind = StatementKind::Case { value, stmt: Box::new(stmt) };
        Statement::new(kind, span)
    }

    /// `default: stmt`.
    pub fn make_default(kw_default: Token, stmt: Statement) -> (r: Statement)
        ensures
            r.span == spec_merge(kw_default.span, stmt.span),
            r.kind matches StatementKind::Default { stmt: s } && *s == stmt,
    {
        let span = kw_default.span.merge(&stmt.span);
        let kind = StatementKind::Default { stmt: Box::new(stmt) };
        Statement::new(kind, span)
    }

    /// `expr;` or `;`.
    pub fn make_expression(expr: Option<Box<Expression>>, semi: Token) -> (r: Statement)
        ensures
            r.span == (match expr {
                Some(x) => spec_merge(semi.span, x.span),
                None => semi.span,
            }),
            r.kind == StatementKind::Expression(expr),
    {
        let span = semi.span;
        let span = match &expr {
            Some(x) => span.merge(&x.span),
            None => span,
        };
        let kind = StatementKind::Expression(expr);
        Statement::new(kind, span)
    }

    /// `if (cond) then_stmt [else else_stmt]`, from `if` to the end of the
    /// `else` branch, if any.
    pub fn make_if(if_token: Token, cond: Box<Expression>, then_stmt: Statement, else_stmt: Option<Statement>) -> (r:
        Statement)
        ensures
            r.span == (match else_stmt {
                Some(x) => spec_merge(if_token.span, x.span),
                None => if_token.span,
            }),
            r.kind matches StatementKind::If { cond: c, then_stmt: t, else_stmt: e } && c == cond && *t == then_stmt
                && e == (match else_stmt {
                Some(x) => Some(Box::new(x)),
                None => None,
            }),
    {
        let span = if_token.span;
        let span = match &else_stmt {
            None => span,
            Some(x) => span.merge(&x.span),
        };
        let else_stmt = match else_stmt {
            Some(x) => Some(Box::new(x)),
            None => None,
        };
        let kind = StatementKind::If { cond, then_stmt: Box::new(then_stmt), else_stmt };
        Statement::new(kind, span)
    }

    /// `switch (cond) body`.
    pub fn make_switch(switch_token: Token, cond: Box<Expression>, body: Statement) -> (r: Statement)
        ensures
            r.span == spec_merge(switch_token.span, body.span),
            r.kind matches StatementKind::Switch { cond: c, body: b } && c == cond && *b == body,
    {
        let span = switch_token.span.merge(&body.span);
        let kind = StatementKind::Switch { cond, body: Box::new(body) };
        Statement::new(kind, span)
    }

    /// `while (cond) body` or `do body while (cond)`, told apart by the
    /// keyword; the closing parenthesis of a `do` loop widens the span.
    pub fn make_while(while_token: Token, cond: Box<Expression>, body: Statement, rparen: Option<Token>) -> (r:
        Statement)
        requires
            while_token.kind == TokenKind::KeywordWhile || while_token.kind == TokenKind::KeywordDo,
        ensures
            r.span == (match rparen {
                None => spec_merge(while_token.span, body.span),
                Some(x) => spec_merge(x.span, spec_merge(while_token.span, body.span)),
            }),
            while_token.kind == TokenKind::KeywordWhile ==> (r.kind matches StatementKind::While { cond: c, body: b }
                && c == cond && *b == body),
            while_token.kind == TokenKind::KeywordDo ==> (r.kind matches StatementKind::DoWhile { body: b, cond: c }
                && c == cond && *b == body),
    {
        let span = while_token.span.merge(&body.span);
        let span = match rparen {
            None => span,
            Some(x) => x.span.merge(&span),
        };
        let kind = match while_token.kind {
            TokenKind::KeywordWhile => StatementKind::While { cond, body: Box::new(body) },
            _ => StatementKind::DoWhile { cond, body: Box::new(body) },
        };
        Statement::new(kind, span)
    }

    /// `for (init; cond; step) body`.
    pub fn make_for(
        for_token: Token,
        init: Option<Box<Expression>>,
        cond: Option<Box<Expression>>,
        step: Option<Box<Expression>>,
        body: Statement,
    ) -> (r: Statement)
        ensures
            r.span == spec_merge(for_token.span, body.span),
            r.kind matches StatementKind::For { init: i, cond: c, step: s, body: b } && i == init && c == cond && s
                == step && *b == body,
    {
        let span = for_token.span.merge(&body.span);
        let kind = StatementKind::For { init, cond, step, body: Box::new(body) };
        Statement::new(kind, span)
    }

    /// `goto label`.
    pub fn make_goto(goto: Token, label: Token) -> (r: Statement)
        requires
            label.value is String,
        ensures
            r.span == spec_merge(goto.span, label.span),
            r.kind matches StatementKind::Goto { label: l } && l@ == text_of(label),
    {
        let goto_span = goto.span;
        let label_span = label.span;
        let span = goto_span.merge(&label_span);
        let label = into_text(label);
        let kind = StatementKind::Goto { label };
        Statement::new(kind, span)
    }

    /// `continue` or `break`, by the keyword.
    pub fn make_continue_break(token: Token) -> (r: Statement)
        requires
            token.kind == TokenKind::KeywordContinue || token.kind == TokenKind::KeywordBreak,
        ensures
            r.span == token.span,
            r.kind == (if token.kind == TokenKind::KeywordContinue {
                StatementKind::Continue
            } else {
                StatementKind::Break
            }),
    {
        let span = token.span;
        let kind = match token.kind {
            TokenKind::KeywordContinue => StatementKind::Continue,
            _ => StatementKind::Break,
        };
        Statement::new(kind, span)
    }

    /// `return [expr]`.
    pub fn make_return(ret: Token, expr: Option<Box<Expression>>) -> (r: Statement)
        ensures
            r.span == (match expr {
                None => ret.span,
                Some(e) => spec_merge(ret.span, e.span),
            }),
            r.kind == StatementKind::Return(expr),
    {
        let ret_span = ret.span;
        let span = match &expr {
            None => ret_span,
            Some(e) => ret_span.merge(&e.span),
        };
        let kind = StatementKind::Return(expr);
        Statement::new(kind, span)
    }
}

impl Expression {
    /// A literal.
    pub fn make_literal(constant: Constant) -> (r: Box<Expression>)
        ensures
            r.span == constant.span,
            r.ty is None,
            r.kind == ExpressionKind::Literal(constant),
    {
        let span = constant.span;
        let kind = ExpressionKind::Literal(constant);
        Box::new(Expression::new(kind, None, span))
    }

    /// A name, not yet bound to a declaration.
    pub fn make_id(token: Token) -> (r: Box<Expression>)
        requires
            token.value is String,
        ensures
            r.span == token.span,
            r.ty is None,
            r.kind matches ExpressionKind::Id { name, decl_ref } && name@ == text_of(token) && decl_ref is None,
    {
        let span = token.span;
        let name = into_text(token);
        let kind = ExpressionKind::Id { name, decl_ref: None };
        Box::new(Expression::new(kind, None, span))
    }

    /// `base[index]`; `token` is the closing bracket.
    pub fn make_array_access(base: Box<Expression>, index: Box<Expression>, token: Token) -> (r: Box<Expression>)
        ensures
            r.span == spec_merge(base.span, token.span),
            r.ty is None,
            r.kind == (ExpressionKind::ArrayAccess { base, index }),
    {
        let span = base.span.merge(&token.span);
        let kind = ExpressionKind::ArrayAccess { base, index };
        Box::new(Expression::new(kind, None, span))
    }

    /// `func(args)`; `token` is the closing parenthesis.
    pub fn make_call(func: Box<Expression>, args: Vec<Box<Expression>>, token: Token) -> (r: Box<Expression>)
        ensures
            r.span == spec_merge(func.span, token.span),
            r.ty is None,
            r.kind == (ExpressionKind::Call { func, args }),
    {
        let span = func.span.merge(&token.span);
        let kind = ExpressionKind::Call { func, args };
        Box::new(Expression::new(kind, None, span))
    }

    /// `base.field`.
    pub fn make_field_access(base: Box<Expression>, field: Token) -> (r: Box<Expression>)
        requires
            field.value is String,
        ensures
            r.span == spec_merge(base.span, field.span),
            r.ty is None,
            r.kind matches ExpressionKind::FieldAccess { base: b, field: f } && b == base && f@ == text_of(field),
    {
        let span = base.span.merge(&field.span);
        let field = into_text(field);
        let kind = ExpressionKind::FieldAccess { base, field };
        Box::new(Expression::new(kind, None, span))
    }

    /// `base->field`.
    pub fn make_arrow(base: Box<Expression>, field: Token) -> (r: Box<Expression>)
        requires
            field.value is String,
        ensures
            r.span == spec_merge(base.span, field.span),
            r.ty is None,
            r.kind matches ExpressionKind::Arrow { base: b, field: f } && b == base && f@ == text_of(field),
    {
        let span = base.span.merge(&field.span);
        let field = into_text(field);
        let kind = ExpressionKind::Arrow { base, field };
        Box::new(Expression::new(kind, None, span))
    }

    /// `++` or `--` before (`post` false) or after (`post` true) `expr`.
    pub fn make_update(expr: Box<Expression>, token: Token, post: bool) -> (r: Box<Expression>)
        requires
            token.kind == TokenKind::OpDec || token.kind == TokenKind::OpInc,
        ensures
            r.span == spec_merge(token.span, expr.span),
            r.ty is None,
            r.kind == (if token.kind == TokenKind::OpDec {
                if post {
                    ExpressionKind::PostDec(expr)
                } else {
                    ExpressionKind::PreDec(expr)
                }
            } else {
                if post {
                    ExpressionKind::PostInc(expr)
                } else {
                    ExpressionKind::PreInc(expr)
                }
            }),
    {
        let span = token.span.merge(&expr.span);
        let kind = match (token.kind, post) {
            (TokenKind::OpDec, true) => ExpressionKind::PostDec(expr),
            (TokenKind::OpDec, false) => ExpressionKind::PreDec(expr),
            (_, true) => ExpressionKind::PostInc(expr),
            (_, false) => ExpressionKind::PreInc(expr),
        };
        Box::new(Expression { kind, ty: None, span })
    }

    /// A unary operator applied to `expr`.
    pub fn make_unary(token: Token, expr: Box<Expression>) -> (r: Box<Expression>)
        requires
            unary_kind(token.kind) is Some,
        ensures
            r.span == spec_merge(token.span, expr.span),
            r.ty is None,
            r.kind == (ExpressionKind::Unary {
                op: UnaryOp { kind: unary_kind(token.kind).unwrap(), span: token.span },
                expr,
            }),
    {
        let token_span = token.span;
        let span = token_span.merge(&expr.span);
        let kind = match token.kind {
            TokenKind::OpBitand => UnaryOpKind::AddressOf,
            TokenKind::OpTimes => UnaryOpKind::Deref,
            TokenKind::OpPlus => UnaryOpKind::Plus,
            TokenKind::OpMinus => UnaryOpKind::Minus,
            TokenKind::OpBitNot => UnaryOpKind::BitNot,
            _ => UnaryOpKind::LogicalNot,
        };
        let op = UnaryOp::new(kind, token_span);
        let expr_kind = ExpressionKind::Unary { op, expr };
        Box::new(Expression::new(expr_kind, None, span))
    }

    /// `sizeof expr`, with the span of `expr`.
    pub fn make_sizeof_expr(_sizeof: Token, expr: Box<Expression>) -> (r: Box<Expression>)
        ensures
            r.span == expr.span,
            r.ty is None,
            r.kind == ExpressionKind::SizeofExpr(expr),
    {
        let span = expr.span;
        let kind = ExpressionKind::SizeofExpr(expr);
        Box::new(Expression::new(kind, None, span))
    }

    /// `lhs op rhs` for the binary operator `token` stands for.
    pub fn make_binary(lhs: Box<Expression>, token: Token, rhs: Box<Expression>) -> (r: Box<Expression>)
        requires
            binary_kind(token.kind) is Some,
        ensures
            r.span == spec_merge(lhs.span, rhs.span),
            r.ty is None,
            r.kind == (ExpressionKind::Binary {
                lhs,
                op: BinaryOp { kind: binary_kind(token.kind).unwrap(), span: token.span },
                rhs,
            }),
    {
        let span = lhs.span.merge(&rhs.span);
        let span_token = token.span;
        let op_kind = match BinaryOpKind::try_from(token) {
            Ok(k) => k,
            Err(_) => BinaryOpKind::Add,
        };
        let op = BinaryOp::new(op_kind, span_token);
        let kind = ExpressionKind::Binary { lhs, op, rhs };
        Box::new(Expression::new(kind, None, span))
    }

    /// `cond ? then_expr : else_expr`.
    pub fn make_conditional(cond: Box<Expression>, then_expr: Box<Expression>, else_expr: Box<Expression>) -> (r: Box<
        Expression,
    >)
        ensures
            r.span == spec_merge(cond.span, else_expr.span),
            r.ty is None,
            r.kind == (ExpressionKind::Conditional { cond, then_expr, else_expr }),
    {
        let span = cond.span.merge(&else_expr.span);
        let kind = ExpressionKind::Conditional { cond, then_expr, else_expr };
        Box::new(Expression::new(kind, None, span))
    }

    /// `lhs op rhs` for the assignment operator `token` stands for; `lhs`
    /// must be an lvalue.
    pub fn make_assign(lhs: Box<Expression>, token: Token, rhs: Box<Expression>) -> (r: Box<Expression>)
        requires
            spec_is_lvalue(*lhs),
            assign_kind(token.kind) is Some,
        ensures
            r.span == spec_merge(lhs.span, rhs.span),
            r.ty is None,
            r.kind == (ExpressionKind::Assign {
                lhs,
                op: AssignOp { kind: assign_kind(token.kind).unwrap(), span: token.span },
                rhs,
            }),
    {
        let span_token = token.span;
        let op_kind = match AssignOpKind::try_from(token) {
            Ok(k) => k,
            Err(_) => AssignOpKind::Assign,
        };
        let span = lhs.span.merge(&rhs.span);
        let op = AssignOp::new(op_kind, span_token);
        let kind = ExpressionKind::Assign { lhs, op, rhs };
        Box::new(Expression { kind, ty: None, span })
    }

    /// The list `exprs` with `expr` appended.
    pub fn make_comma(exprs: Vec<Box<Expression>>, expr: Box<Expression>) -> (r: Vec<Box<Expression>>)
        ensures
            r@ == exprs@.push(expr),
    {
        let mut exprs = exprs;
        exprs.push(expr);
        exprs
    }
}

impl Constant {
    /// The constant a token gives; the token must carry a value.
    pub fn make(token: Token) -> (r: Constant)
        requires
            !(token.value is Other),
        ensures
            r.span == token.span,
            Some(r.kind) == spec_constant_kind(token.value),
    {
        match Constant::try_from(token) {
            Ok(c) => c,
            Err(_) => Constant::new(ConstantKind::Int(0), Span { start: 0, end: 0 }),
        }
    }

    /// A string constant with the text of `token` appended, its span
    /// widened over the token: adjacent string literals join.
    pub fn insert_str(constant: Constant, token: Token) -> (r: Constant)
        requires
            constant.kind is String,
            token.value is String,
        ensures
            r.span == spec_merge(constant.span, token.span),
            r.kind matches ConstantKind::String(s) && s@ == (match constant.kind {
                ConstantKind::String(t) => t@,
                _ => Seq::empty(),
            }) + text_of(token),
    {
        let token_span = token.span;
        let token_str = into_text(token);
        let mut span = constant.span;
        span.merge_self(&token_span);
        let kind = match constant.kind {
            ConstantKind::String(s) => {
                let mut s = s;
                s.append(token_str.as_str());
                ConstantKind::String(s)
            },
            other => other,
        };
        Constant { kind, span }
    }
}

/// The span of an external declaration.
pub open spec fn ext_decl_span(e: ExternalDeclaration) -> Span {
    match e {
        ExternalDeclaration::Function(x) => x.span,
        ExternalDeclaration::Declaration(x) => x.span,
    }
}

impl TranslationUnit {
    /// A translation unit of one external declaration.
    pub fn make_translation_unit(ext_decl: ExternalDeclaration) -> (r: TranslationUnit)
        ensures
            r.ext_decls@ == seq![ext_decl],
    {
        TranslationUnit { ext_decls: vec![ext_decl] }
    }

    /// Appends an external declaration; the unit must hold one already.
    pub fn insert_ext_decl(translation_unit: TranslationUnit, ext_decl: ExternalDeclaration) -> (r: TranslationUnit)
        requires
            translation_unit.ext_decls.len() > 0,
        ensures
            r.ext_decls@ == translation_unit.ext_decls@.push(ext_decl),
    {
        let mut translation_unit = translation_unit;
        let mut span = translation_unit.unwrap_span();
        span.merge_self(&ext_decl.unwrap_span());
        translation_unit.ext_decls.push(ext_decl);
        translation_unit
    }

    /// From the start of the first external declaration to the end of the
    /// last; the unit must not be empty.
    pub fn unwrap_span(&self) -> (r: Span)
        requires
            self.ext_decls.len() > 0,
        ensures
            r == spec_merge(ext_decl_span(self.ext_decls@[0]), ext_decl_span(self.ext_decls@.last())),
    {
        let first = self.ext_decls[0].unwrap_span();
        let last = self.ext_decls[self.ext_decls.len() - 1].unwrap_span();
        first.merge(&last)
    }
}

impl ExternalDeclaration {
    /// A function definition as an external declaration.
    pub fn make_func(def: Box<FunctionDefinition>) -> (r: ExternalDeclaration)
        ensures
            r == ExternalDeclaration::Function(*def),
    {
        ExternalDeclaration::Function(*def)
    }

    /// A declaration as an external declaration.
    pub fn make_decl(decl: DeclStmt) -> (r: ExternalDeclaration)
        ensures
            r == ExternalDeclaration::Declaration(decl),
    {
        ExternalDeclaration::Declaration(decl)
    }

    /// The span of the definition or declaration.
    pub fn unwrap_span(&self) -> (r: Span)
        ensures
            r == ext_decl_span(*self),
    {
        match self {
            ExternalDeclaration::Function(x) => x.span,
            ExternalDeclaration::Declaration(x) => x.span,
        }
    }
}

impl BlockItem {
    /// A declaration as a block item.
    pub fn make_decl(decl: DeclStmt) -> (r: BlockItem)
        ensures
            r == BlockItem::Declaration(decl),
    {
        BlockItem::Declaration(decl)
    }

    /// A statement as a block item.
    pub fn make_stmt(stmt: Statement) -> (r: BlockItem)
        ensures
            r == BlockItem::Statement(stmt),
    {
        BlockItem::Statement(stmt)
    }

    /// A list of one block item.
    pub fn make_list(block_item: BlockItem) -> (r: Vec<BlockItem>)
        ensures
            r@ == seq![block_item],
    {
        vec![block_item]
    }

    /// Appends a block item to the list.
    pub fn push(list: Vec<BlockItem>, block_item: BlockItem) -> (r: Vec<BlockItem>)
        ensures
            r@ == list@.push(block_item),
    {
        let mut list = list;
        list.push(block_item);
        list
    }
}

impl Initializer {
    /// An initializer of one expression.
    pub fn make_expr(expr: Box<Expression>) -> (r: Initializer)
        ensures
            r == Initializer::Scalar(expr),
    {
        Initializer::Scalar(expr)
    }

    /// A braced list of initializers, with or without a trailing comma.
    pub fn make_init_list(lbrace: Token, list: Vec<Initializer>, comma: Option<Token>, rbrace: Token) -> (r: Initializer)
        ensures
            r == Initializer::List(list),
    {
        Initializer::List(list)
    }

    /// A list of one initializer.
    pub fn make_list(init: Initializer) -> (r: Vec<Initializer>)
        ensures
            r@ == seq![init],
    {
        vec![init]
    }

    /// Appends an initializer after a comma.
    pub fn push(list: Vec<Initializer>, comma: Token, init: Initializer) -> (r: Vec<Initializer>)
        ensures
            r@ == list@.push(init),
    {
        let mut list = list;
        list.push(init);
        list
    }
}

impl Statement {
    /// A compound statement `{ items }`, from brace to brace.
    pub fn make_compound(lbrace: Token, list: Option<Vec<BlockItem>>, rbrace: Token) -> (r: Statement)
        ensures
            r.span == spec_merge(lbrace.span, rbrace.span),
            r.kind matches StatementKind::Block(b) && b.items@ == (match list {
                Some(l) => l@,
                None => Seq::empty(),
            }),
    {
        let span = lbrace.span.merge(&rbrace.span);
        let items = match list {
            Some(l) => l,
            None => Vec::new(),
        };
        Statement::new(StatementKind::Block(Box::new(Block { items })), span)
    }
}

} // verus!
