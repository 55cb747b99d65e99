use ccfront::parser::cst::{
    insert_type_qualifier_list, make_init_declarator_list_opt, make_type_qualifier_list, AdditiveExpression,
    ArgumentExpressionList, AssignmentOperator, Constant, DeclarationSpecifiers, Declaration, Declarator,
    DirectDeclarator, ExternalDeclaration, InitDeclarator, InitDeclaratorList, MultiplicativeExpression, Pointer,
    RelationalExpression, SemanticValue, StorageClassSpecifier, StructOrUnion, TranslationUnit, TypeQualifier,
    TypeSpecifier, UnaryExpression, UnaryOperator, CastExpression, PostfixExpression, PrimaryExpression,
    ShiftExpression, JumpStatement, Statement, SelectionStatement, ExpressionStatement, Expression,
    AssignmentExpression, ConditionalExpression, LogicalOrExpression, LogicalAndExpression, InclusiveOrExpression,
    ExclusiveOrExpression, AndExpression, EqualityExpression,
};
use ccfront::parser::cst_folder::{fold_expression, fold_statement, fold_translation_unit, CSTFolder};
use ccfront::types::token::{Token, TokenValue};

fn tok(beg: usize, end: usize) -> Token {
    Token { beg, end, typ: 1, value: TokenValue::Other }
}

/// Counts the tokens under each node, and the hooks called.
struct TokenCounter {
    calls: usize,
}

impl CSTFolder for TokenCounter {
    type Result = usize;

    fn fold_translation_unit_multi(&mut self, translation_unit: usize, external_declaration: usize) -> usize {
        self.calls += 1;
        translation_unit + external_declaration
    }

    fn fold_function_definition_with(&mut self, decl_spec: usize, declarator: usize, decl_list: Vec<usize>, body: usize) -> usize {
        self.calls += 1;
        decl_spec + declarator + decl_list.iter().sum::<usize>() + body
    }

    fn fold_function_definition_without(&mut self, declarator: usize, decl_list: Vec<usize>, body: usize) -> usize {
        self.calls += 1;
        declarator + decl_list.iter().sum::<usize>() + body
    }

    fn fold_declaration_node(&mut self, decl_specifiers: usize, init_decl: Vec<usize>) -> usize {
        self.calls += 1;
        decl_specifiers + init_decl.iter().sum::<usize>()
    }

    fn fold_init_declarator_node(&mut self, declarator: usize, initializer: usize) -> usize {
        self.calls += 1;
        declarator + initializer
    }

    fn fold_declaration_specifiers_storage_class(&mut self, storage_class_specifier: usize, decl_specifiers: Option<usize>) -> usize {
        self.calls += 1;
        storage_class_specifier + decl_specifiers.unwrap_or(0)
    }

    fn fold_declaration_specifiers_type_specifier(&mut self, type_specifier: usize, decl_specifiers: Option<usize>) -> usize {
        self.calls += 1;
        type_specifier + decl_specifiers.unwrap_or(0)
    }

    fn fold_declaration_specifiers_type_qualifier(&mut self, type_qualifier: usize, decl_specifiers: Option<usize>) -> usize {
        self.calls += 1;
        type_qualifier + decl_specifiers.unwrap_or(0)
    }

    fn fold_storage_class_specifier(&mut self, _node: StorageClassSpecifier) -> usize {
        self.calls += 1;
        1
    }

    fn fold_type_specifier(&mut self, _node: TypeSpecifier) -> usize {
        self.calls += 1;
        1
    }

    fn fold_type_qualifier(&mut self, _node: TypeQualifier) -> usize {
        self.calls += 1;
        1
    }

    fn fold_struct_or_union_specifier_defined(&mut self, kind: usize, name: Option<Token>, fields: Vec<usize>) -> usize {
        self.calls += 1;
        kind + name.map_or(0, |_| 1) + fields.iter().sum::<usize>()
    }

    fn fold_struct_or_union_specifier_named(&mut self, kind: usize, _name: Token) -> usize {
        self.calls += 1;
        kind + 1
    }

    fn fold_struct_or_union(&mut self, _node: StructOrUnion) -> usize {
        self.calls += 1;
        1
    }

    fn fold_struct_declaration_node(&mut self, specifiers: usize, declarators: Vec<usize>) -> usize {
        self.calls += 1;
        specifiers + declarators.iter().sum::<usize>()
    }

    fn fold_struct_declarator_node(&mut self, declarator: Option<usize>, constexpr: usize) -> usize {
        self.calls += 1;
        declarator.unwrap_or(0) + constexpr
    }

    fn fold_enum_specifier_node(&mut self, name: Option<usize>, enumerators: Vec<usize>) -> usize {
        self.calls += 1;
        name.unwrap_or(0) + enumerators.iter().sum::<usize>()
    }

    fn fold_enumerator_node(&mut self, _token: Token, constexpr: usize) -> usize {
        self.calls += 1;
        1 + constexpr
    }

    fn fold_declarator_node(&mut self, pointer: Option<usize>, direct: usize) -> usize {
        self.calls += 1;
        pointer.unwrap_or(0) + direct
    }

    fn fold_pointer_node(&mut self, type_quals: Vec<usize>, pointer: Option<usize>) -> usize {
        self.calls += 1;
        type_quals.iter().sum::<usize>() + pointer.unwrap_or(0)
    }

    fn fold_direct_declarator_array(&mut self, direct_declarator: usize, constexpr: Option<usize>) -> usize {
        self.calls += 1;
        direct_declarator + constexpr.unwrap_or(0)
    }

    fn fold_direct_declarator_func_params(&mut self, direct_declarator: usize, parameter_type_list: usize) -> usize {
        self.calls += 1;
        direct_declarator + parameter_type_list
    }

    fn fold_direct_declarator_func_idents(&mut self, direct_declarator: usize, idents: Vec<Token>) -> usize {
        self.calls += 1;
        direct_declarator + idents.len()
    }

    fn fold_labeled_statement_label(&mut self, _token: Token, stmt: usize) -> usize {
        self.calls += 1;
        1 + stmt
    }

    fn fold_labeled_statement_case(&mut self, constexpr: usize, stmt: usize) -> usize {
        self.calls += 1;
        constexpr + stmt
    }

    fn fold_compound_statement_node(&mut self, block_items: Vec<usize>) -> usize {
        self.calls += 1;
        block_items.iter().sum::<usize>()
    }

    fn fold_selection_statement_if(&mut self, cond: usize, then_stmt: usize, else_stmt: Option<usize>) -> usize {
        self.calls += 1;
        cond + then_stmt + else_stmt.unwrap_or(0)
    }

    fn fold_selection_statement_switch(&mut self, cond: usize, body: usize) -> usize {
        self.calls += 1;
        cond + body
    }

    fn fold_iteration_statement_while(&mut self, cond: usize, body: usize) -> usize {
        self.calls += 1;
        cond + body
    }

    fn fold_iteration_statement_do_while(&mut self, cond: usize, body: usize) -> usize {
        self.calls += 1;
        cond + body
    }

    fn fold_iteration_statement_for(&mut self, init: Option<usize>, cond: Option<usize>, step: Option<usize>, body: usize) -> usize {
        self.calls += 1;
        init.unwrap_or(0) + cond.unwrap_or(0) + step.unwrap_or(0) + body
    }

    fn fold_jump_statement_return(&mut self, expr: Option<usize>) -> usize {
        self.calls += 1;
        expr.unwrap_or(0)
    }

    fn fold_primary_expressing_string_literal(&mut self, x: Vec<Token>) -> usize {
        self.calls += 1;
        x.len()
    }

    fn fold_constant(&mut self, _node: Constant) -> usize {
        self.calls += 1;
        1
    }

    fn fold_postfix_expression_array(&mut self, post_expr: usize, expr: usize) -> usize {
        self.calls += 1;
        post_expr + expr
    }

    fn fold_postfix_expression_call(&mut self, post_expr: usize, arg_expr_list: Option<ArgumentExpressionList>) -> usize {
        self.calls += 1;
        post_expr + arg_expr_list.map_or(0, |a| a.len())
    }

    fn fold_postfix_expression_field(&mut self, post_expr: usize, _token: Token) -> usize {
        self.calls += 1;
        post_expr + 1
    }

    fn fold_postfix_expression_arrow(&mut self, post_expr: usize, _token: Token) -> usize {
        self.calls += 1;
        post_expr + 1
    }

    fn fold_unary_expression_unary_op(&mut self, unary_op: usize, cast_expr: usize) -> usize {
        self.calls += 1;
        unary_op + cast_expr
    }

    fn fold_unary_operator(&mut self, _node: UnaryOperator) -> usize {
        self.calls += 1;
        1
    }

    fn fold_cast_expression_cast(&mut self, ty_name: usize, cast_expr: usize) -> usize {
        self.calls += 1;
        ty_name + cast_expr
    }

    fn fold_multiplicative_expression_mul(&mut self, mul_expr: usize, cast_expr: usize) -> usize {
        self.calls += 1;
        mul_expr + cast_expr
    }

    fn fold_multiplicative_expression_div(&mut self, mul_expr: usize, cast_expr: usize) -> usize {
        self.calls += 1;
        mul_expr + cast_expr
    }

    fn fold_multiplicative_expression_mod(&mut self, mul_expr: usize, cast_expr: usize) -> usize {
        self.calls += 1;
        mul_expr + cast_expr
    }

    fn fold_additive_expression_add(&mut self, add_expr: usize, mul_expr: usize) -> usize {
        self.calls += 1;
        add_expr + mul_expr
    }

    fn fold_additive_expression_sub(&mut self, add_expr: usize, mul_expr: usize) -> usize {
        self.calls += 1;
        add_expr + mul_expr
    }

    fn fold_shift_expression_shl(&mut self, shift_expr: usize, add_expr: usize) -> usize {
        self.calls += 1;
        shift_expr + add_expr
    }

    fn fold_shift_expression_shr(&mut self, shift_expr: usize, add_expr: usize) -> usize {
        self.calls += 1;
        shift_expr + add_expr
    }

    fn fold_relational_expression_lt(&mut self, relation_expr: usize, shift_expr: usize) -> usize {
        self.calls += 1;
        relation_expr + shift_expr
    }

    fn fold_relational_expression_gt(&mut self, relation_expr: usize, shift_expr: usize) -> usize {
        self.calls += 1;
        relation_expr + shift_expr
    }

    fn fold_relational_expression_le(&mut self, relation_expr: usize, shift_expr: usize) -> usize {
        self.calls += 1;
        relation_expr + shift_expr
    }

    fn fold_relational_expression_ge(&mut self, relation_expr: usize, shift_expr: usize) -> usize {
        self.calls += 1;
        relation_expr + shift_expr
    }

    fn fold_equality_expression_eq(&mut self, eq_expr: usize, relation_expr: usize) -> usize {
        self.calls += 1;
        eq_expr + relation_expr
    }

    fn fold_equality_expression_ne(&mut self, eq_expr: usize, relation_expr: usize) -> usize {
        self.calls += 1;
        eq_expr + relation_expr
    }

    fn fold_and_expression_and(&mut self, and_expr: usize, eq_expr: usize) -> usize {
        self.calls += 1;
        and_expr + eq_expr
    }

    fn fold_exclusive_or_expression_xor(&mut self, exclusive_or_expr: usize, and_expr: usize) -> usize {
        self.calls += 1;
        exclusive_or_expr + and_expr
    }

    fn fold_inclusive_or_expression_or(&mut self, inclusive_or_expr: usize, exclusive_or_expr: usize) -> usize {
        self.calls += 1;
        inclusive_or_expr + exclusive_or_expr
    }

    fn fold_logical_and_expression_and(&mut self, logical_and_expr: usize, inclusive_or_expr: usize) -> usize {
        self.calls += 1;
        logical_and_expr + inclusive_or_expr
    }

    fn fold_logical_or_expression_or(&mut self, logical_or_expr: usize, logical_and_expr: usize) -> usize {
        self.calls += 1;
        logical_or_expr + logical_and_expr
    }

    fn fold_conditional_expression_cond(&mut self, cond_expr: usize, then_expr: usize, else_expr: usize) -> usize {
        self.calls += 1;
        cond_expr + then_expr + else_expr
    }

    fn fold_assignment_expression_assign(&mut self, lhs_expr: usize, op: usize, rhs: usize) -> usize {
        self.calls += 1;
        lhs_expr + op + rhs
    }

    fn fold_assignment_operator(&mut self, _node: AssignmentOperator) -> usize {
        self.calls += 1;
        1
    }

    fn fold_expression_node(&mut self, expr: usize, assign_expr: usize) -> usize {
        self.calls += 1;
        expr + assign_expr
    }

    fn fold_type_name_node(&mut self, specifiers: usize, abs_declarator: Option<usize>) -> usize {
        self.calls += 1;
        specifiers + abs_declarator.unwrap_or(0)
    }

    fn fold_initializer_list_node(&mut self, node: Vec<usize>) -> usize {
        self.calls += 1;
        node.iter().sum::<usize>()
    }

    fn fold_abstract_declarator_direct(&mut self, pointer: Option<usize>, direct: usize) -> usize {
        self.calls += 1;
        pointer.unwrap_or(0) + direct
    }

    fn fold_direct_abstract_declarator_array(&mut self, constexpr: Option<usize>) -> usize {
        self.calls += 1;
        constexpr.unwrap_or(0)
    }

    fn fold_direct_abstract_declarator_array_nested(&mut self, direct_abs_declarator: usize, constexpr: Option<usize>) -> usize {
        self.calls += 1;
        direct_abs_declarator + constexpr.unwrap_or(0)
    }

    fn fold_direct_abstract_declarator_func(&mut self, param_type_list: Option<usize>) -> usize {
        self.calls += 1;
        param_type_list.unwrap_or(0)
    }

    fn fold_direct_abstract_declarator_func_nested(&mut self, direct_abs_declarator: usize, param_type_list: Option<usize>) -> usize {
        self.calls += 1;
        direct_abs_declarator + param_type_list.unwrap_or(0)
    }

    fn fold_parameter_type_list_node(&mut self, param_decl: Vec<usize>) -> usize {
        self.calls += 1;
        param_decl.iter().sum::<usize>()
    }

    fn fold_parameter_declaration_with_declarator(&mut self, specs: usize, declarator: usize) -> usize {
        self.calls += 1;
        specs + declarator
    }

    fn fold_parameter_declaration_abstract(&mut self, specs: usize, abs_decl: Option<usize>) -> usize {
        self.calls += 1;
        specs + abs_decl.unwrap_or(0)
    }

    fn fold_specifier_qualifier_list_type_spec(&mut self, type_spec: usize, spec_qual_list: Option<usize>) -> usize {
        self.calls += 1;
        type_spec + spec_qual_list.unwrap_or(0)
    }

    fn fold_specifier_qualifier_list_type_qual(&mut self, type_qual: usize, spec_qual_list: Option<usize>) -> usize {
        self.calls += 1;
        type_qual + spec_qual_list.unwrap_or(0)
    }

    fn fold_token(&mut self, _node: Token) -> usize {
        self.calls += 1;
        1
    }
}

/// `int x;` as the grammar rules build it.
fn int_x() -> SemanticValue {
    let spec = DeclarationSpecifiers::make_type_specifier(
        TypeSpecifier::make_int(SemanticValue::Token(tok(0, 3))),
        SemanticValue::DeclarationSpecifiersOpt(None),
    );
    let direct = DirectDeclarator::make_id(SemanticValue::Token(tok(4, 5)));
    let decl = Declarator::make_declarator(SemanticValue::PointerOpt(None), direct);
    let init = InitDeclarator::make_plain(decl);
    let list = make_init_declarator_list_opt(InitDeclaratorList::make_init_decl_list(init));
    let declaration = Declaration::make_declaration(spec, list);
    TranslationUnit::make_single(ExternalDeclaration::make_declaration(declaration))
}

/// `a + b` as an expression.
fn a_plus_b(sub: bool) -> SemanticValue {
    let operand = |t: Token| {
        let primary = PrimaryExpression::make_id(SemanticValue::Token(t));
        let postfix = PostfixExpression::make_primary(primary);
        let unary = UnaryExpression::make_postfix(postfix);
        let cast = CastExpression::make_unary(unary);
        MultiplicativeExpression::make_cast(cast)
    };
    let lhs = AdditiveExpression::make_mul(operand(tok(0, 1)));
    if sub {
        AdditiveExpression::make_sub(lhs, operand(tok(4, 5)))
    } else {
        AdditiveExpression::make_add(lhs, operand(tok(4, 5)))
    }
}

fn as_expression(additive: SemanticValue) -> SemanticValue {
    let shift = ShiftExpression::make_add(additive);
    let rel = RelationalExpression::make_shift(shift);
    let eq = EqualityExpression::make_rel(rel);
    let and = AndExpression::make_eq(eq);
    let xor = ExclusiveOrExpression::make_and(and);
    let or = InclusiveOrExpression::make_xor(xor);
    let land = LogicalAndExpression::make_or(or);
    let lor = LogicalOrExpression::make_and(land);
    let cond = ConditionalExpression::make_or(lor);
    let assign = AssignmentExpression::make_conditional(cond);
    Expression::make_single(assign)
}

#[test]
fn cst_declaration_is_built() {
    match int_x() {
        SemanticValue::TranslationUnit(TranslationUnit::Single(ext)) => match *ext {
            ExternalDeclaration::Declaration(d) => {
                assert!(matches!(d.specifiers, DeclarationSpecifiers::TypeSpecifier(TypeSpecifier::Int(_), None)));
                let list = d.init_declarators.unwrap();
                assert_eq!(list.0.len(), 1);
                match &list.0[0] {
                    InitDeclarator::Plain(decl) => {
                        assert!(decl.pointer.is_none());
                        match &decl.direct {
                            DirectDeclarator::Id(t) => assert_eq!((t.beg, t.end), (4, 5)),
                            x => panic!("{:?}", x),
                        }
                    }
                    x => panic!("{:?}", x),
                }
            }
            x => panic!("{:?}", x),
        },
        x => panic!("{:?}", x),
    }
}

#[test]
fn cst_fold_counts_tokens() {
    let unit = match int_x() {
        SemanticValue::TranslationUnit(u) => u,
        x => panic!("{:?}", x),
    };
    let mut counter = TokenCounter { calls: 0 };
    assert_eq!(fold_translation_unit(&mut counter, unit), 2);
    // type specifier, the specifiers, the name, the declarator, the declaration
    assert_eq!(counter.calls, 5);

    let expr = match as_expression(a_plus_b(false)) {
        SemanticValue::Expression(e) => e,
        x => panic!("{:?}", x),
    };
    let mut counter = TokenCounter { calls: 0 };
    assert_eq!(fold_expression(&mut counter, expr), 2);
    assert_eq!(counter.calls, 3);
}

#[test]
fn cst_rules_that_reuse_a_node() {
    // `-` and `>` build the nodes of `+` and `<`, and prefix `--` that of `++`.
    match a_plus_b(true) {
        SemanticValue::AdditiveExpression(AdditiveExpression::Add(_, _)) => {}
        x => panic!("{:?}", x),
    }
    let shift = |t: Token| {
        ShiftExpression::make_add(AdditiveExpression::make_mul(MultiplicativeExpression::make_cast(CastExpression::make_unary(
            UnaryExpression::make_postfix(PostfixExpression::make_primary(PrimaryExpression::make_id(SemanticValue::Token(t)))),
        ))))
    };
    let rel = RelationalExpression::make_shift(shift(tok(0, 1)));
    match RelationalExpression::make_gt(rel, shift(tok(4, 5))) {
        SemanticValue::RelationalExpression(RelationalExpression::Lt(_, _)) => {}
        x => panic!("{:?}", x),
    }
    let unary = UnaryExpression::make_postfix(PostfixExpression::make_primary(PrimaryExpression::make_id(SemanticValue::Token(tok(2, 3)))));
    match UnaryExpression::make_pre_dec(unary) {
        SemanticValue::UnaryExpression(UnaryExpression::PreInc(_)) => {}
        x => panic!("{:?}", x),
    }
}

#[test]
fn cst_pointer_and_lists() {
    let quals = make_type_qualifier_list(TypeQualifier::make_const(SemanticValue::Token(tok(1, 6))));
    let quals = insert_type_qualifier_list(quals, TypeQualifier::make_volatile(SemanticValue::Token(tok(7, 15))));
    let inner = Pointer::make_pointer(SemanticValue::Empty, SemanticValue::Empty);
    match Pointer::make_pointer(quals, inner) {
        SemanticValue::Pointer(Pointer::Single(q, Some(p))) => {
            assert_eq!(q.len(), 2);
            assert!(matches!(q[1], TypeQualifier::Volatile(_)));
            assert!(matches!(*p, Pointer::Single(ref q2, None) if q2.is_empty()));
        }
        x => panic!("{:?}", x),
    }
    assert!(matches!(StorageClassSpecifier::make_static(SemanticValue::Token(tok(0, 6))), SemanticValue::StorageClassSpecifier(StorageClassSpecifier::Static(_))));
    assert!(matches!(StructOrUnion::make_union(SemanticValue::Token(tok(0, 5))), SemanticValue::StructOrUnion(StructOrUnion::Union(_))));
    assert!(matches!(UnaryOperator::not(SemanticValue::Token(tok(0, 1))), SemanticValue::UnaryOperator(UnaryOperator::Not(_))));
    assert!(matches!(AssignmentOperator::shl_assign(SemanticValue::Token(tok(0, 3))), SemanticValue::AssignmentOperator(AssignmentOperator::ShlAssign(_))));
    assert!(matches!(Constant::make_char(SemanticValue::Token(tok(0, 3))), SemanticValue::Constant(Constant::Char(_))));
    let args: ArgumentExpressionList = Vec::new();
    assert!(args.is_empty());
}

#[test]
fn cst_fold_statements() {
    // `if (a + b) return; else ;`
    let cond = as_expression(a_plus_b(false));
    let ret = Statement::make_jump(JumpStatement::make_return(SemanticValue::Empty));
    let empty = Statement::make_expression(ExpressionStatement::make_empty(SemanticValue::Token(tok(20, 21))));
    let stmt = Statement::make_selection(SelectionStatement::make_if(cond, ret, empty));
    let stmt = match stmt {
        SemanticValue::Statement(s) => s,
        x => panic!("{:?}", x),
    };
    let mut counter = TokenCounter { calls: 0 };
    // a, b, the empty statement's `;`
    assert_eq!(fold_statement(&mut counter, stmt), 3);
}
