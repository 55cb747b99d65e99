//! Folding the concrete syntax tree bottom-up.
//!
//! A folder supplies one hook per kind of node; the `fold_*` functions walk
//! a node, fold its children first, and hand the children's results to the
//! node's hook. Nodes that only pass a child through (a postfix `++`, a
//! `default:` label, a unary `sizeof`) fold to their child's result.
//!
//! Each `fold_*` function has a `folded_*` spec function that threads the
//! folder through the same walk; for a folder whose hooks behave as its
//! `on_*` functions state (`obeys_fold_spec`), the fold leaves the folder
//! and returns exactly what `folded_*` gives.
use crate::parser::cst::{
    AbstractDeclarator, ArgumentExpressionList, AssignmentExpression, AssignmentOperator, BlockItem, CastExpression,
    CompoundStatement, ConditionalExpression, Constant, ConstantExpression, Declaration,
    DeclarationSpecifiers, Declarator, DirectAbstractDeclarator, DirectDeclarator, EnumSpecifier, Enumerator,
    Expression, ExpressionStatement, ExternalDeclaration, FunctionDefinition, InitDeclarator, Initializer,
    InitializerList, IterationStatement, JumpStatement, LabeledStatement, ParameterDeclaration, ParameterTypeList,
    Pointer, PostfixExpression, PrimaryExpression, SelectionStatement, SpecifierQualifierList, Statement,
    StorageClassSpecifier, StructDeclaration, StructDeclarator, StructOrUnion, StructOrUnionSpecifier,
    TranslationUnit, TypeName, TypeQualifier, TypeSpecifier, UnaryExpression, UnaryOperator, MultiplicativeExpression,
    AdditiveExpression, ShiftExpression, RelationalExpression, EqualityExpression, AndExpression,
    ExclusiveOrExpression, InclusiveOrExpression, LogicalAndExpression, LogicalOrExpression,
};
use crate::types::token::Token;
use vstd::prelude::*;

verus! {

/// The hooks of a fold over the syntax tree, one per kind of node, each
/// given the results of the node's children.
pub trait CSTFolder: Sized {
    type Result;

    /// Whether the hooks of this folder behave as the `on_*` functions state:
    /// each hook leaves the folder and returns what its `on_*` function gives
    /// for the folder and the hook's arguments. An implementation that
    /// claims this defines the `on_*` functions to match its hooks; one that
    /// does not claims nothing.
    open spec fn obeys_fold_spec() -> bool {
        false
    }

    /// What `fold_translation_unit_multi` makes of the folder, and returns.
    open spec fn on_translation_unit_multi(&self, translation_unit: Self::Result, external_declaration: Self::Result) -> (Self, Self::Result) {
        vstd::pervasive::arbitrary()
    }

    fn fold_translation_unit_multi(&mut self, translation_unit: Self::Result, external_declaration: Self::Result) -> (r: Self::Result)
        ensures
            Self::obeys_fold_spec() ==> (*final(self), r) == old(self).on_translation_unit_multi(translation_unit, external_declaration),
    ;

    /// What `fold_function_definition_with` makes of the folder, and returns.
    open spec fn on_function_definition_with(&self, decl_spec: Self::Result, declarator: Self::Result, decl_list: Seq<Self::Result>, body: Self::Result) -> (Self, Self::Result) {
        vstd::pervasive::arbitrary()
    }

    fn fold_function_definition_with(&mut self, decl_spec: Self::Result, declarator: Self::Result, decl_list: Vec<Self::Result>, body: Self::Result) -> (r: Self::Result)
        ensures
            Self::obeys_fold_spec() ==> (*final(self), r) == old(self).on_function_definition_with(decl_spec, declarator, decl_list@, body),
    ;

    /// What `fold_function_definition_without` makes of the folder, and returns.
    open spec fn on_function_definition_without(&self, declarator: Self::Result, decl_list: Seq<Self::Result>, body: Self::Result) -> (Self, Self::Result) {
        vstd::pervasive::arbitrary()
    }

    fn fold_function_definition_without(&mut self, declarator: Self::Result, decl_list: Vec<Self::Result>, body: Self::Result) -> (r: Self::Result)
        ensures
            Self::obeys_fold_spec() ==> (*final(self), r) == old(self).on_function_definition_without(declarator, decl_list@, body),
    ;

    /// What `fold_declaration_node` makes of the folder, and returns.
    open spec fn on_declaration_node(&self, decl_specifiers: Self::Result, init_decl: Seq<Self::Result>) -> (Self, Self::Result) {
        vstd::pervasive::arbitrary()
    }

    fn fold_declaration_node(&mut self, decl_specifiers: Self::Result, init_decl: Vec<Self::Result>) -> (r: Self::Result)
        ensures
            Self::obeys_fold_spec() ==> (*final(self), r) == old(self).on_declaration_node(decl_specifiers, init_decl@),
    ;

    /// What `fold_init_declarator_node` makes of the folder, and returns.
    open spec fn on_init_declarator_node(&self, declarator: Self::Result, initializer: Self::Result) -> (Self, Self::Result) {
        vstd::pervasive::arbitrary()
    }

    fn fold_init_declarator_node(&mut self, declarator: Self::Result, initializer: Self::Result) -> (r: Self::Result)
        ensures
            Self::obeys_fold_spec() ==> (*final(self), r) == old(self).on_init_declarator_node(declarator, initializer),
    ;

    /// What `fold_declaration_specifiers_storage_class` makes of the folder, and returns.
    open spec fn on_declaration_specifiers_storage_class(&self, storage_class_specifier: Self::Result, decl_specifiers: Option<Self::Result>) -> (Self, Self::Result) {
        vstd::pervasive::arbitrary()
    }

    fn fold_declaration_specifiers_storage_class(&mut self, storage_class_specifier: Self::Result, decl_specifiers: Option<Self::Result>) -> (r: Self::Result)
        ensures
            Self::obeys_fold_spec() ==> (*final(self), r) == old(self).on_declaration_specifiers_storage_class(storage_class_specifier, decl_specifiers),
    ;

    /// What `fold_declaration_specifiers_type_specifier` makes of the folder, and returns.
    open spec fn on_declaration_specifiers_type_specifier(&self, type_specifier: Self::Result, decl_specifiers: Option<Self::Result>) -> (Self, Self::Result) {
        vstd::pervasive::arbitrary()
    }

    fn fold_declaration_specifiers_type_specifier(&mut self, type_specifier: Self::Result, decl_specifiers: Option<Self::Result>) -> (r: Self::Result)
        ensures
            Self::obeys_fold_spec() ==> (*final(self), r) == old(self).on_declaration_specifiers_type_specifier(type_specifier, decl_specifiers),
    ;

    /// What `fold_declaration_specifiers_type_qualifier` makes of the folder, and returns.
    open spec fn on_declaration_specifiers_type_qualifier(&self, type_qualifier: Self::Result, decl_specifiers: Option<Self::Result>) -> (Self, Self::Result) {
        vstd::pervasive::arbitrary()
    }

    fn fold_declaration_specifiers_type_qualifier(&mut self, type_qualifier: Self::Result, decl_specifiers: Option<Self::Result>) -> (r: Self::Result)
        ensures
            Self::obeys_fold_spec() ==> (*final(self), r) == old(self).on_declaration_specifiers_type_qualifier(type_qualifier, decl_specifiers),
    ;

    /// What `fold_storage_class_specifier` makes of the folder, and returns.
    open spec fn on_storage_class_specifier(&self, node: StorageClassSpecifier) -> (Self, Self::Result) {
        vstd::pervasive::arbitrary()
    }

    fn fold_storage_class_specifier(&mut self, node: StorageClassSpecifier) -> (r: Self::Result)
        ensures
            Self::obeys_fold_spec() ==> (*final(self), r) == old(self).on_storage_class_specifier(node),
    ;

    /// What `fold_type_specifier` makes of the folder, and returns.
    open spec fn on_type_specifier(&self, node: TypeSpecifier) -> (Self, Self::Result) {
        vstd::pervasive::arbitrary()
    }

    /// A type specifier is folded whole: struct and enum specifiers inside
    /// it are left to this hook.
    fn fold_type_specifier(&mut self, node: TypeSpecifier) -> (r: Self::Result)
        ensures
            Self::obeys_fold_spec() ==> (*final(self), r) == old(self).on_type_specifier(node),
    ;

    /// What `fold_type_qualifier` makes of the folder, and returns.
    open spec fn on_type_qualifier(&self, node: TypeQualifier) -> (Self, Self::Result) {
        vstd::pervasive::arbitrary()
    }

    fn fold_type_qualifier(&mut self, node: TypeQualifier) -> (r: Self::Result)
        ensures
            Self::obeys_fold_spec() ==> (*final(self), r) == old(self).on_type_qualifier(node),
    ;

    /// What `fold_struct_or_union_specifier_defined` makes of the folder, and returns.
    open spec fn on_struct_or_union_specifier_defined(&self, kind: Self::Result, name: Option<Token>, fields: Seq<Self::Result>) -> (Self, Self::Result) {
        vstd::pervasive::arbitrary()
    }

    fn fold_struct_or_union_specifier_defined(&mut self, kind: Self::Result, name: Option<Token>, fields: Vec<Self::Result>) -> (r: Self::Result)
        ensures
            Self::obeys_fold_spec() ==> (*final(self), r) == old(self).on_struct_or_union_specifier_defined(kind, name, fields@),
    ;

    /// What `fold_struct_or_union_specifier_named` makes of the folder, and returns.
    open spec fn on_struct_or_union_specifier_named(&self, kind: Self::Result, name: Token) -> (Self, Self::Result) {
        vstd::pervasive::arbitrary()
    }

    fn fold_struct_or_union_specifier_named(&mut self, kind: Self::Result, name: Token) -> (r: Self::Result)
        ensures
            Self::obeys_fold_spec() ==> (*final(self), r) == old(self).on_struct_or_union_specifier_named(kind, name),
    ;

    /// What `fold_struct_or_union` makes of the folder, and returns.
    open spec fn on_struct_or_union(&self, node: StructOrUnion) -> (Self, Self::Result) {
        vstd::pervasive::arbitrary()
    }

    fn fold_struct_or_union(&mut self, node: StructOrUnion) -> (r: Self::Result)
        ensures
            Self::obeys_fold_spec() ==> (*final(self), r) == old(self).on_struct_or_union(node),
    ;

    /// What `fold_struct_declaration_node` makes of the folder, and returns.
    open spec fn on_struct_declaration_node(&self, specifiers: Self::Result, declarators: Seq<Self::Result>) -> (Self, Self::Result) {
        vstd::pervasive::arbitrary()
    }

    fn fold_struct_declaration_node(&mut self, specifiers: Self::Result, declarators: Vec<Self::Result>) -> (r: Self::Result)
        ensures
            Self::obeys_fold_spec() ==> (*final(self), r) == old(self).on_struct_declaration_node(specifiers, declarators@),
    ;

    /// What `fold_struct_declarator_node` makes of the folder, and returns.
    open spec fn on_struct_declarator_node(&self, declarator: Option<Self::Result>, constexpr: Self::Result) -> (Self, Self::Result) {
        vstd::pervasive::arbitrary()
    }

    fn fold_struct_declarator_node(&mut self, declarator: Option<Self::Result>, constexpr: Self::Result) -> (r: Self::Result)
        ensures
            Self::obeys_fold_spec() ==> (*final(self), r) == old(self).on_struct_declarator_node(declarator, constexpr),
    ;

    /// What `fold_enum_specifier_node` makes of the folder, and returns.
    open spec fn on_enum_specifier_node(&self, name: Option<Self::Result>, enumerators: Seq<Self::Result>) -> (Self, Self::Result) {
        vstd::pervasive::arbitrary()
    }

    fn fold_enum_specifier_node(&mut self, name: Option<Self::Result>, enumerators: Vec<Self::Result>) -> (r: Self::Result)
        ensures
            Self::obeys_fold_spec() ==> (*final(self), r) == old(self).on_enum_specifier_node(name, enumerators@),
    ;

    /// What `fold_enumerator_node` makes of the folder, and returns.
    open spec fn on_enumerator_node(&self, token: Token, constexpr: Self::Result) -> (Self, Self::Result) {
        vstd::pervasive::arbitrary()
    }

    fn fold_enumerator_node(&mut self, token: Token, constexpr: Self::Result) -> (r: Self::Result)
        ensures
            Self::obeys_fold_spec() ==> (*final(self), r) == old(self).on_enumerator_node(token, constexpr),
    ;

    /// What `fold_declarator_node` makes of the folder, and returns.
    open spec fn on_declarator_node(&self, pointer: Option<Self::Result>, direct: Self::Result) -> (Self, Self::Result) {
        vstd::pervasive::arbitrary()
    }

    fn fold_declarator_node(&mut self, pointer: Option<Self::Result>, direct: Self::Result) -> (r: Self::Result)
        ensures
            Self::obeys_fold_spec() ==> (*final(self), r) == old(self).on_declarator_node(pointer, direct),
    ;

    /// What `fold_pointer_node` makes of the folder, and returns.
    open spec fn on_pointer_node(&self, type_quals: Seq<Self::Result>, pointer: Option<Self::Result>) -> (Self, Self::Result) {
        vstd::pervasive::arbitrary()
    }

    fn fold_pointer_node(&mut self, type_quals: Vec<Self::Result>, pointer: Option<Self::Result>) -> (r: Self::Result)
        ensures
            Self::obeys_fold_spec() ==> (*final(self), r) == old(self).on_pointer_node(type_quals@, pointer),
    ;

    /// What `fold_direct_declarator_array` makes of the folder, and returns.
    open spec fn on_direct_declarator_array(&self, direct_declarator: Self::Result, constexpr: Option<Self::Result>) -> (Self, Self::Result) {
        vstd::pervasive::arbitrary()
    }

    fn fold_direct_declarator_array(&mut self, direct_declarator: Self::Result, constexpr: Option<Self::Result>) -> (r: Self::Result)
        ensures
            Self::obeys_fold_spec() ==> (*final(self), r) == old(self).on_direct_declarator_array(direct_declarator, constexpr),
    ;

    /// What `fold_direct_declarator_func_params` makes of the folder, and returns.
    open spec fn on_direct_declarator_func_params(&self, direct_declarator: Self::Result, parameter_type_list: Self::Result) -> (Self, Self::Result) {
        vstd::pervasive::arbitrary()
    }

    fn fold_direct_declarator_func_params(&mut self, direct_declarator: Self::Result, parameter_type_list: Self::Result) -> (r: Self::Result)
        ensures
            Self::obeys_fold_spec() ==> (*final(self), r) == old(self).on_direct_declarator_func_params(direct_declarator, parameter_type_list),
    ;

    /// What `fold_direct_declarator_func_idents` makes of the folder, and returns.
    open spec fn on_direct_declarator_func_idents(&self, direct_declarator: Self::Result, idents: Seq<Token>) -> (Self, Self::Result) {
        vstd::pervasive::arbitrary()
    }

    fn fold_direct_declarator_func_idents(&mut self, direct_declarator: Self::Result, idents: Vec<Token>) -> (r: Self::Result)
        ensures
            Self::obeys_fold_spec() ==> (*final(self), r) == old(self).on_direct_declarator_func_idents(direct_declarator, idents@),
    ;

    /// What `fold_labeled_statement_label` makes of the folder, and returns.
    open spec fn on_labeled_statement_label(&self, token: Token, stmt: Self::Result) -> (Self, Self::Result) {
        vstd::pervasive::arbitrary()
    }

    fn fold_labeled_statement_label(&mut self, token: Token, stmt: Self::Result) -> (r: Self::Result)
        ensures
            Self::obeys_fold_spec() ==> (*final(self), r) == old(self).on_labeled_statement_label(token, stmt),
    ;

    /// What `fold_labeled_statement_case` makes of the folder, and returns.
    open spec fn on_labeled_statement_case(&self, constexpr: Self::Result, stmt: Self::Result) -> (Self, Self::Result) {
        vstd::pervasive::arbitrary()
    }

    fn fold_labeled_statement_case(&mut self, constexpr: Self::Result, stmt: Self::Result) -> (r: Self::Result)
        ensures
            Self::obeys_fold_spec() ==> (*final(self), r) == old(self).on_labeled_statement_case(constexpr, stmt),
    ;

    /// What `fold_compound_statement_node` makes of the folder, and returns.
    open spec fn on_compound_statement_node(&self, block_items: Seq<Self::Result>) -> (Self, Self::Result) {
        vstd::pervasive::arbitrary()
    }

    fn fold_compound_statement_node(&mut self, block_items: Vec<Self::Result>) -> (r: Self::Result)
        ensures
            Self::obeys_fold_spec() ==> (*final(self), r) == old(self).on_compound_statement_node(block_items@),
    ;

    /// What `fold_selection_statement_if` makes of the folder, and returns.
    open spec fn on_selection_statement_if(&self, cond: Self::Result, then_stmt: Self::Result, else_stmt: Option<Self::Result>) -> (Self, Self::Result) {
        vstd::pervasive::arbitrary()
    }

    fn fold_selection_statement_if(&mut self, cond: Self::Result, then_stmt: Self::Result, else_stmt: Option<Self::Result>) -> (r: Self::Result)
        ensures
            Self::obeys_fold_spec() ==> (*final(self), r) == old(self).on_selection_statement_if(cond, then_stmt, else_stmt),
    ;

    /// What `fold_selection_statement_switch` makes of the folder, and returns.
    open spec fn on_selection_statement_switch(&self, cond: Self::Result, body: Self::Result) -> (Self, Self::Result) {
        vstd::pervasive::arbitrary()
    }

    fn fold_selection_statement_switch(&mut self, cond: Self::Result, body: Self::Result) -> (r: Self::Result)
        ensures
            Self::obeys_fold_spec() ==> (*final(self), r) == old(self).on_selection_statement_switch(cond, body),
    ;

    /// What `fold_iteration_statement_while` makes of the folder, and returns.
    open spec fn on_iteration_statement_while(&self, cond: Self::Result, body: Self::Result) -> (Self, Self::Result) {
        vstd::pervasive::arbitrary()
    }

    fn fold_iteration_statement_while(&mut self, cond: Self::Result, body: Self::Result) -> (r: Self::Result)
        ensures
            Self::obeys_fold_spec() ==> (*final(self), r) == old(self).on_iteration_statement_while(cond, body),
    ;

    /// What `fold_iteration_statement_do_while` makes of the folder, and returns.
    open spec fn on_iteration_statement_do_while(&self, cond: Self::Result, body: Self::Result) -> (Self, Self::Result) {
        vstd::pervasive::arbitrary()
    }

    fn fold_iteration_statement_do_while(&mut self, cond: Self::Result, body: Self::Result) -> (r: Self::Result)
        ensures
            Self::obeys_fold_spec() ==> (*final(self), r) == old(self).on_iteration_statement_do_while(cond, body),
    ;

    /// What `fold_iteration_statement_for` makes of the folder, and returns.
    open spec fn on_iteration_statement_for(&self, init: Option<Self::Result>, cond: Option<Self::Result>, step: Option<Self::Result>, body: Self::Result) -> (Self, Self::Result) {
        vstd::pervasive::arbitrary()
    }

    fn fold_iteration_statement_for(&mut self, init: Option<Self::Result>, cond: Option<Self::Result>, step: Option<Self::Result>, body: Self::Result) -> (r: Self::Result)
        ensures
            Self::obeys_fold_spec() ==> (*final(self), r) == old(self).on_iteration_statement_for(init, cond, step, body),
    ;

    /// What `fold_jump_statement_return` makes of the folder, and returns.
    open spec fn on_jump_statement_return(&self, expr: Option<Self::Result>) -> (Self, Self::Result) {
        vstd::pervasive::arbitrary()
    }

    fn fold_jump_statement_return(&mut self, expr: Option<Self::Result>) -> (r: Self::Result)
        ensures
            Self::obeys_fold_spec() ==> (*final(self), r) == old(self).on_jump_statement_return(expr),
    ;

    /// What `fold_primary_expressing_string_literal` makes of the folder, and returns.
    open spec fn on_primary_expressing_string_literal(&self, x: Seq<Token>) -> (Self, Self::Result) {
        vstd::pervasive::arbitrary()
    }

    fn fold_primary_expressing_string_literal(&mut self, x: Vec<Token>) -> (r: Self::Result)
        ensures
            Self::obeys_fold_spec() ==> (*final(self), r) == old(self).on_primary_expressing_string_literal(x@),
    ;

    /// What `fold_constant` makes of the folder, and returns.
    open spec fn on_constant(&self, node: Constant) -> (Self, Self::Result) {
        vstd::pervasive::arbitrary()
    }

    fn fold_constant(&mut self, node: Constant) -> (r: Self::Result)
        ensures
            Self::obeys_fold_spec() ==> (*final(self), r) == old(self).on_constant(node),
    ;

    /// What `fold_postfix_expression_array` makes of the folder, and returns.
    open spec fn on_postfix_expression_array(&self, post_expr: Self::Result, expr: Self::Result) -> (Self, Self::Result) {
        vstd::pervasive::arbitrary()
    }

    fn fold_postfix_expression_array(&mut self, post_expr: Self::Result, expr: Self::Result) -> (r: Self::Result)
        ensures
            Self::obeys_fold_spec() ==> (*final(self), r) == old(self).on_postfix_expression_array(post_expr, expr),
    ;

    /// What `fold_postfix_expression_call` makes of the folder, and returns.
    open spec fn on_postfix_expression_call(&self, post_expr: Self::Result, arg_expr_list: Option<ArgumentExpressionList>) -> (Self, Self::Result) {
        vstd::pervasive::arbitrary()
    }

    /// The arguments of a call are handed over unfolded.
    fn fold_postfix_expression_call(&mut self, post_expr: Self::Result, arg_expr_list: Option<ArgumentExpressionList>) -> (r: Self::Result)
        ensures
            Self::obeys_fold_spec() ==> (*final(self), r) == old(self).on_postfix_expression_call(post_expr, arg_expr_list),
    ;

    /// What `fold_postfix_expression_field` makes of the folder, and returns.
    open spec fn on_postfix_expression_field(&self, post_expr: Self::Result, token: Token) -> (Self, Self::Result) {
        vstd::pervasive::arbitrary()
    }

    fn fold_postfix_expression_field(&mut self, post_expr: Self::Result, token: Token) -> (r: Self::Result)
        ensures
            Self::obeys_fold_spec() ==> (*final(self), r) == old(self).on_postfix_expression_field(post_expr, token),
    ;

    /// What `fold_postfix_expression_arrow` makes of the folder, and returns.
    open spec fn on_postfix_expression_arrow(&self, post_expr: Self::Result, token: Token) -> (Self, Self::Result) {
        vstd::pervasive::arbitrary()
    }

    fn fold_postfix_expression_arrow(&mut self, post_expr: Self::Result, token: Token) -> (r: Self::Result)
        ensures
            Self::obeys_fold_spec() ==> (*final(self), r) == old(self).on_postfix_expression_arrow(post_expr, token),
    ;

    /// What `fold_unary_expression_unary_op` makes of the folder, and returns.
    open spec fn on_unary_expression_unary_op(&self, unary_op: Self::Result, cast_expr: Self::Result) -> (Self, Self::Result) {
        vstd::pervasive::arbitrary()
    }

    fn fold_unary_expression_unary_op(&mut self, unary_op: Self::Result, cast_expr: Self::Result) -> (r: Self::Result)
        ensures
            Self::obeys_fold_spec() ==> (*final(self), r) == old(self).on_unary_expression_unary_op(unary_op, cast_expr),
    ;

    /// What `fold_unary_operator` makes of the folder, and returns.
    open spec fn on_unary_operator(&self, node: UnaryOperator) -> (Self, Self::Result) {
        vstd::pervasive::arbitrary()
    }

    fn fold_unary_operator(&mut self, node: UnaryOperator) -> (r: Self::Result)
        ensures
            Self::obeys_fold_spec() ==> (*final(self), r) == old(self).on_unary_operator(node),
    ;

    /// What `fold_cast_expression_cast` makes of the folder, and returns.
    open spec fn on_cast_expression_cast(&self, ty_name: Self::Result, cast_expr: Self::Result) -> (Self, Self::Result) {
        vstd::pervasive::arbitrary()
    }

    fn fold_cast_expression_cast(&mut self, ty_name: Self::Result, cast_expr: Self::Result) -> (r: Self::Result)
        ensures
            Self::obeys_fold_spec() ==> (*final(self), r) == old(self).on_cast_expression_cast(ty_name, cast_expr),
    ;

    /// What `fold_multiplicative_expression_mul` makes of the folder, and returns.
    open spec fn on_multiplicative_expression_mul(&self, mul_expr: Self::Result, cast_expr: Self::Result) -> (Self, Self::Result) {
        vstd::pervasive::arbitrary()
    }

    fn fold_multiplicative_expression_mul(&mut self, mul_expr: Self::Result, cast_expr: Self::Result) -> (r: Self::Result)
        ensures
            Self::obeys_fold_spec() ==> (*final(self), r) == old(self).on_multiplicative_expression_mul(mul_expr, cast_expr),
    ;

    /// What `fold_multiplicative_expression_div` makes of the folder, and returns.
    open spec fn on_multiplicative_expression_div(&self, mul_expr: Self::Result, cast_expr: Self::Result) -> (Self, Self::Result) {
        vstd::pervasive::arbitrary()
    }

    fn fold_multiplicative_expression_div(&mut self, mul_expr: Self::Result, cast_expr: Self::Result) -> (r: Self::Result)
        ensures
            Self::obeys_fold_spec() ==> (*final(self), r) == old(self).on_multiplicative_expression_div(mul_expr, cast_expr),
    ;

    /// What `fold_multiplicative_expression_mod` makes of the folder, and returns.
    open spec fn on_multiplicative_expression_mod(&self, mul_expr: Self::Result, cast_expr: Self::Result) -> (Self, Self::Result) {
        vstd::pervasive::arbitrary()
    }

    fn fold_multiplicative_expression_mod(&mut self, mul_expr: Self::Result, cast_expr: Self::Result) -> (r: Self::Result)
        ensures
            Self::obeys_fold_spec() ==> (*final(self), r) == old(self).on_multiplicative_expression_mod(mul_expr, cast_expr),
    ;

    /// What `fold_additive_expression_add` makes of the folder, and returns.
    open spec fn on_additive_expression_add(&self, add_expr: Self::Result, mul_expr: Self::Result) -> (Self, Self::Result) {
        vstd::pervasive::arbitrary()
    }

    fn fold_additive_expression_add(&mut self, add_expr: Self::Result, mul_expr: Self::Result) -> (r: Self::Result)
        ensures
            Self::obeys_fold_spec() ==> (*final(self), r) == old(self).on_additive_expression_add(add_expr, mul_expr),
    ;

    /// What `fold_additive_expression_sub` makes of the folder, and returns.
    open spec fn on_additive_expression_sub(&self, add_expr: Self::Result, mul_expr: Self::Result) -> (Self, Self::Result) {
        vstd::pervasive::arbitrary()
    }

    fn fold_additive_expression_sub(&mut self, add_expr: Self::Result, mul_expr: Self::Result) -> (r: Self::Result)
        ensures
            Self::obeys_fold_spec() ==> (*final(self), r) == old(self).on_additive_expression_sub(add_expr, mul_expr),
    ;

    /// What `fold_shift_expression_shl` makes of the folder, and returns.
    open spec fn on_shift_expression_shl(&self, shift_expr: Self::Result, add_expr: Self::Result) -> (Self, Self::Result) {
        vstd::pervasive::arbitrary()
    }

    fn fold_shift_expression_shl(&mut self, shift_expr: Self::Result, add_expr: Self::Result) -> (r: Self::Result)
        ensures
            Self::obeys_fold_spec() ==> (*final(self), r) == old(self).on_shift_expression_shl(shift_expr, add_expr),
    ;

    /// What `fold_shift_expression_shr` makes of the folder, and returns.
    open spec fn on_shift_expression_shr(&self, shift_expr: Self::Result, add_expr: Self::Result) -> (Self, Self::Result) {
        vstd::pervasive::arbitrary()
    }

    fn fold_shift_expression_shr(&mut self, shift_expr: Self::Result, add_expr: Self::Result) -> (r: Self::Result)
        ensures
            Self::obeys_fold_spec() ==> (*final(self), r) == old(self).on_shift_expression_shr(shift_expr, add_expr),
    ;

    /// What `fold_relational_expression_lt` makes of the folder, and returns.
    open spec fn on_relational_expression_lt(&self, relation_expr: Self::Result, shift_expr: Self::Result) -> (Self, Self::Result) {
        vstd::pervasive::arbitrary()
    }

    fn fold_relational_expression_lt(&mut self, relation_expr: Self::Result, shift_expr: Self::Result) -> (r: Self::Result)
        ensures
            Self::obeys_fold_spec() ==> (*final(self), r) == old(self).on_relational_expression_lt(relation_expr, shift_expr),
    ;

    /// What `fold_relational_expression_gt` makes of the folder, and returns.
    open spec fn on_relational_expression_gt(&self, relation_expr: Self::Result, shift_expr: Self::Result) -> (Self, Self::Result) {
        vstd::pervasive::arbitrary()
    }

    fn fold_relational_expression_gt(&mut self, relation_expr: Self::Result, shift_expr: Self::Result) -> (r: Self::Result)
        ensures
            Self::obeys_fold_spec() ==> (*final(self), r) == old(self).on_relational_expression_gt(relation_expr, shift_expr),
    ;

    /// What `fold_relational_expression_le` makes of the folder, and returns.
    open spec fn on_relational_expression_le(&self, relation_expr: Self::Result, shift_expr: Self::Result) -> (Self, Self::Result) {
        vstd::pervasive::arbitrary()
    }

    fn fold_relational_expression_le(&mut self, relation_expr: Self::Result, shift_expr: Self::Result) -> (r: Self::Result)
        ensures
            Self::obeys_fold_spec() ==> (*final(self), r) == old(self).on_relational_expression_le(relation_expr, shift_expr),
    ;

    /// What `fold_relational_expression_ge` makes of the folder, and returns.
    open spec fn on_relational_expression_ge(&self, relation_expr: Self::Result, shift_expr: Self::Result) -> (Self, Self::Result) {
        vstd::pervasive::arbitrary()
    }

    fn fold_relational_expression_ge(&mut self, relation_expr: Self::Result, shift_expr: Self::Result) -> (r: Self::Result)
        ensures
            Self::obeys_fold_spec() ==> (*final(self), r) == old(self).on_relational_expression_ge(relation_expr, shift_expr),
    ;

    /// What `fold_equality_expression_eq` makes of the folder, and returns.
    open spec fn on_equality_expression_eq(&self, eq_expr: Self::Result, relation_expr: Self::Result) -> (Self, Self::Result) {
        vstd::pervasive::arbitrary()
    }

    fn fold_equality_expression_eq(&mut self, eq_expr: Self::Result, relation_expr: Self::Result) -> (r: Self::Result)
        ensures
            Self::obeys_fold_spec() ==> (*final(self), r) == old(self).on_equality_expression_eq(eq_expr, relation_expr),
    ;

    /// What `fold_equality_expression_ne` makes of the folder, and returns.
    open spec fn on_equality_expression_ne(&self, eq_expr: Self::Result, relation_expr: Self::Result) -> (Self, Self::Result) {
        vstd::pervasive::arbitrary()
    }

    fn fold_equality_expression_ne(&mut self, eq_expr: Self::Result, relation_expr: Self::Result) -> (r: Self::Result)
        ensures
            Self::obeys_fold_spec() ==> (*final(self), r) == old(self).on_equality_expression_ne(eq_expr, relation_expr),
    ;

    /// What `fold_and_expression_and` makes of the folder, and returns.
    open spec fn on_and_expression_and(&self, and_expr: Self::Result, eq_expr: Self::Result) -> (Self, Self::Result) {
        vstd::pervasive::arbitrary()
    }

    fn fold_and_expression_and(&mut self, and_expr: Self::Result, eq_expr: Self::Result) -> (r: Self::Result)
        ensures
            Self::obeys_fold_spec() ==> (*final(self), r) == old(self).on_and_expression_and(and_expr, eq_expr),
    ;

    /// What `fold_exclusive_or_expression_xor` makes of the folder, and returns.
    open spec fn on_exclusive_or_expression_xor(&self, exclusive_or_expr: Self::Result, and_expr: Self::Result) -> (Self, Self::Result) {
        vstd::pervasive::arbitrary()
    }

    fn fold_exclusive_or_expression_xor(&mut self, exclusive_or_expr: Self::Result, and_expr: Self::Result) -> (r: Self::Result)
        ensures
            Self::obeys_fold_spec() ==> (*final(self), r) == old(self).on_exclusive_or_expression_xor(exclusive_or_expr, and_expr),
    ;

    /// What `fold_inclusive_or_expression_or` makes of the folder, and returns.
    open spec fn on_inclusive_or_expression_or(&self, inclusive_or_expr: Self::Result, exclusive_or_expr: Self::Result) -> (Self, Self::Result) {
        vstd::pervasive::arbitrary()
    }

    fn fold_inclusive_or_expression_or(&mut self, inclusive_or_expr: Self::Result, exclusive_or_expr: Self::Result) -> (r: Self::Result)
        ensures
            Self::obeys_fold_spec() ==> (*final(self), r) == old(self).on_inclusive_or_expression_or(inclusive_or_expr, exclusive_or_expr),
    ;

    /// What `fold_logical_and_expression_and` makes of the folder, and returns.
    open spec fn on_logical_and_expression_and(&self, logical_and_expr: Self::Result, inclusive_or_expr: Self::Result) -> (Self, Self::Result) {
        vstd::pervasive::arbitrary()
    }

    fn fold_logical_and_expression_and(&mut self, logical_and_expr: Self::Result, inclusive_or_expr: Self::Result) -> (r: Self::Result)
        ensures
            Self::obeys_fold_spec() ==> (*final(self), r) == old(self).on_logical_and_expression_and(logical_and_expr, inclusive_or_expr),
    ;

    /// What `fold_logical_or_expression_or` makes of the folder, and returns.
    open spec fn on_logical_or_expression_or(&self, logical_or_expr: Self::Result, logical_and_expr: Self::Result) -> (Self, Self::Result) {
        vstd::pervasive::arbitrary()
    }

    fn fold_logical_or_expression_or(&mut self, logical_or_expr: Self::Result, logical_and_expr: Self::Result) -> (r: Self::Result)
        ensures
            Self::obeys_fold_spec() ==> (*final(self), r) == old(self).on_logical_or_expression_or(logical_or_expr, logical_and_expr),
    ;

    /// What `fold_conditional_expression_cond` makes of the folder, and returns.
    open spec fn on_conditional_expression_cond(&self, cond_expr: Self::Result, then_expr: Self::Result, else_expr: Self::Result) -> (Self, Self::Result) {
        vstd::pervasive::arbitrary()
    }

    fn fold_conditional_expression_cond(&mut self, cond_expr: Self::Result, then_expr: Self::Result, else_expr: Self::Result) -> (r: Self::Result)
        ensures
            Self::obeys_fold_spec() ==> (*final(self), r) == old(self).on_conditional_expression_cond(cond_expr, then_expr, else_expr),
    ;

    /// What `fold_assignment_expression_assign` makes of the folder, and returns.
    open spec fn on_assignment_expression_assign(&self, lhs_expr: Self::Result, op: Self::Result, rhs: Self::Result) -> (Self, Self::Result) {
        vstd::pervasive::arbitrary()
    }

    fn fold_assignment_expression_assign(&mut self, lhs_expr: Self::Result, op: Self::Result, rhs: Self::Result) -> (r: Self::Result)
        ensures
            Self::obeys_fold_spec() ==> (*final(self), r) == old(self).on_assignment_expression_assign(lhs_expr, op, rhs),
    ;

    /// What `fold_assignment_operator` makes of the folder, and returns.
    open spec fn on_assignment_operator(&self, node: AssignmentOperator) -> (Self, Self::Result) {
        vstd::pervasive::arbitrary()
    }

    fn fold_assignment_operator(&mut self, node: AssignmentOperator) -> (r: Self::Result)
        ensures
            Self::obeys_fold_spec() ==> (*final(self), r) == old(self).on_assignment_operator(node),
    ;

    /// What `fold_expression_node` makes of the folder, and returns.
    open spec fn on_expression_node(&self, expr: Self::Result, assign_expr: Self::Result) -> (Self, Self::Result) {
        vstd::pervasive::arbitrary()
    }

    fn fold_expression_node(&mut self, expr: Self::Result, assign_expr: Self::Result) -> (r: Self::Result)
        ensures
            Self::obeys_fold_spec() ==> (*final(self), r) == old(self).on_expression_node(expr, assign_expr),
    ;

    /// What `fold_type_name_node` makes of the folder, and returns.
    open spec fn on_type_name_node(&self, specifiers: Self::Result, abs_declarator: Option<Self::Result>) -> (Self, Self::Result) {
        vstd::pervasive::arbitrary()
    }

    fn fold_type_name_node(&mut self, specifiers: Self::Result, abs_declarator: Option<Self::Result>) -> (r: Self::Result)
        ensures
            Self::obeys_fold_spec() ==> (*final(self), r) == old(self).on_type_name_node(specifiers, abs_declarator),
    ;

    /// What `fold_initializer_list_node` makes of the folder, and returns.
    open spec fn on_initializer_list_node(&self, node: Seq<Self::Result>) -> (Self, Self::Result) {
        vstd::pervasive::arbitrary()
    }

    fn fold_initializer_list_node(&mut self, node: Vec<Self::Result>) -> (r: Self::Result)
        ensures
            Self::obeys_fold_spec() ==> (*final(self), r) == old(self).on_initializer_list_node(node@),
    ;

    /// What `fold_abstract_declarator_direct` makes of the folder, and returns.
    open spec fn on_abstract_declarator_direct(&self, pointer: Option<Self::Result>, direct: Self::Result) -> (Self, Self::Result) {
        vstd::pervasive::arbitrary()
    }

    fn fold_abstract_declarator_direct(&mut self, pointer: Option<Self::Result>, direct: Self::Result) -> (r: Self::Result)
        ensures
            Self::obeys_fold_spec() ==> (*final(self), r) == old(self).on_abstract_declarator_direct(pointer, direct),
    ;

    /// What `fold_direct_abstract_declarator_array` makes of the folder, and returns.
    open spec fn on_direct_abstract_declarator_array(&self, constexpr: Option<Self::Result>) -> (Self, Self::Result) {
        vstd::pervasive::arbitrary()
    }

    fn fold_direct_abstract_declarator_array(&mut self, constexpr: Option<Self::Result>) -> (r: Self::Result)
        ensures
            Self::obeys_fold_spec() ==> (*final(self), r) == old(self).on_direct_abstract_declarator_array(constexpr),
    ;

    /// What `fold_direct_abstract_declarator_array_nested` makes of the folder, and returns.
    open spec fn on_direct_abstract_declarator_array_nested(&self, direct_abs_declarator: Self::Result, constexpr: Option<Self::Result>) -> (Self, Self::Result) {
        vstd::pervasive::arbitrary()
    }

    fn fold_direct_abstract_declarator_array_nested(&mut self, direct_abs_declarator: Self::Result, constexpr: Option<Self::Result>) -> (r: Self::Result)
        ensures
            Self::obeys_fold_spec() ==> (*final(self), r) == old(self).on_direct_abstract_declarator_array_nested(direct_abs_declarator, constexpr),
    ;

    /// What `fold_direct_abstract_declarator_func` makes of the folder, and returns.
    open spec fn on_direct_abstract_declarator_func(&self, param_type_list: Option<Self::Result>) -> (Self, Self::Result) {
        vstd::pervasive::arbitrary()
    }

    fn fold_direct_abstract_declarator_func(&mut self, param_type_list: Option<Self::Result>) -> (r: Self::Result)
        ensures
            Self::obeys_fold_spec() ==> (*final(self), r) == old(self).on_direct_abstract_declarator_func(param_type_list),
    ;

    /// What `fold_direct_abstract_declarator_func_nested` makes of the folder, and returns.
    open spec fn on_direct_abstract_declarator_func_nested(&self, direct_abs_declarator: Self::Result, param_type_list: Option<Self::Result>) -> (Self, Self::Result) {
        vstd::pervasive::arbitrary()
    }

    fn fold_direct_abstract_declarator_func_nested(&mut self, direct_abs_declarator: Self::Result, param_type_list: Option<Self::Result>) -> (r: Self::Result)
        ensures
            Self::obeys_fold_spec() ==> (*final(self), r) == old(self).on_direct_abstract_declarator_func_nested(direct_abs_declarator, param_type_list),
    ;

    /// What `fold_parameter_type_list_node` makes of the folder, and returns.
    open spec fn on_parameter_type_list_node(&self, param_decl: Seq<Self::Result>) -> (Self, Self::Result) {
        vstd::pervasive::arbitrary()
    }

    fn fold_parameter_type_list_node(&mut self, param_decl: Vec<Self::Result>) -> (r: Self::Result)
        ensures
            Self::obeys_fold_spec() ==> (*final(self), r) == old(self).on_parameter_type_list_node(param_decl@),
    ;

    /// What `fold_parameter_declaration_with_declarator` makes of the folder, and returns.
    open spec fn on_parameter_declaration_with_declarator(&self, specs: Self::Result, declarator: Self::Result) -> (Self, Self::Result) {
        vstd::pervasive::arbitrary()
    }

    fn fold_parameter_declaration_with_declarator(&mut self, specs: Self::Result, declarator: Self::Result) -> (r: Self::Result)
        ensures
            Self::obeys_fold_spec() ==> (*final(self), r) == old(self).on_parameter_declaration_with_declarator(specs, declarator),
    ;

    /// What `fold_parameter_declaration_abstract` makes of the folder, and returns.
    open spec fn on_parameter_declaration_abstract(&self, specs: Self::Result, abs_decl: Option<Self::Result>) -> (Self, Self::Result) {
        vstd::pervasive::arbitrary()
    }

    fn fold_parameter_declaration_abstract(&mut self, specs: Self::Result, abs_decl: Option<Self::Result>) -> (r: Self::Result)
        ensures
            Self::obeys_fold_spec() ==> (*final(self), r) == old(self).on_parameter_declaration_abstract(specs, abs_decl),
    ;

    /// What `fold_specifier_qualifier_list_type_spec` makes of the folder, and returns.
    open spec fn on_specifier_qualifier_list_type_spec(&self, type_spec: Self::Result, spec_qual_list: Option<Self::Result>) -> (Self, Self::Result) {
        vstd::pervasive::arbitrary()
    }

    fn fold_specifier_qualifier_list_type_spec(&mut self, type_spec: Self::Result, spec_qual_list: Option<Self::Result>) -> (r: Self::Result)
        ensures
            Self::obeys_fold_spec() ==> (*final(self), r) == old(self).on_specifier_qualifier_list_type_spec(type_spec, spec_qual_list),
    ;

    /// What `fold_specifier_qualifier_list_type_qual` makes of the folder, and returns.
    open spec fn on_specifier_qualifier_list_type_qual(&self, type_qual: Self::Result, spec_qual_list: Option<Self::Result>) -> (Self, Self::Result) {
        vstd::pervasive::arbitrary()
    }

    fn fold_specifier_qualifier_list_type_qual(&mut self, type_qual: Self::Result, spec_qual_list: Option<Self::Result>) -> (r: Self::Result)
        ensures
            Self::obeys_fold_spec() ==> (*final(self), r) == old(self).on_specifier_qualifier_list_type_qual(type_qual, spec_qual_list),
    ;

    /// What `fold_token` makes of the folder, and returns.
    open spec fn on_token(&self, node: Token) -> (Self, Self::Result) {
        vstd::pervasive::arbitrary()
    }

    fn fold_token(&mut self, node: Token) -> (r: Self::Result)
        ensures
            Self::obeys_fold_spec() ==> (*final(self), r) == old(self).on_token(node),
    ;
}

/// The folder and the result after folding `node` as `fold_translation_unit` does.
pub open spec fn folded_translation_unit<F: CSTFolder>(f: F, node: TranslationUnit) -> (F, F::Result)
    decreases node,
{
    match node {
        TranslationUnit::Single(ext_decl) => folded_external_declaration(f, *ext_decl),
        TranslationUnit::Multi(unit, ext_decl) => {
            let (f1, unit) = folded_translation_unit(f, *unit);
            let (f2, ext_decl) = folded_external_declaration(f1, *ext_decl);
            f2.on_translation_unit_multi(unit, ext_decl)
        },
    }
}

/// Folds a translation unit.
pub fn fold_translation_unit<F: CSTFolder>(f: &mut F, node: TranslationUnit) -> (r: F::Result)
    ensures
        F::obeys_fold_spec() ==> (*final(f), r) == folded_translation_unit(*old(f), node),
    decreases node,
{
    match node {
        TranslationUnit::Single(ext_decl) => fold_external_declaration(f, *ext_decl),
        TranslationUnit::Multi(unit, ext_decl) => {
            let unit = fold_translation_unit(f, *unit);
            let ext_decl = fold_external_declaration(f, *ext_decl);
            f.fold_translation_unit_multi(unit, ext_decl)
        },
    }
}

/// The folder and the result after folding `node` as `fold_external_declaration` does.
pub open spec fn folded_external_declaration<F: CSTFolder>(f: F, node: ExternalDeclaration) -> (F, F::Result)
    decreases node,
{
    match node {
        ExternalDeclaration::FunctionDefinition(func_def) => folded_function_definition(f, func_def),
        ExternalDeclaration::Declaration(decl) => folded_declaration(f, decl),
    }
}

/// Folds an external declaration.
pub fn fold_external_declaration<F: CSTFolder>(f: &mut F, node: ExternalDeclaration) -> (r: F::Result)
    ensures
        F::obeys_fold_spec() ==> (*final(f), r) == folded_external_declaration(*old(f), node),
    decreases node,
{
    match node {
        ExternalDeclaration::FunctionDefinition(func_def) => fold_function_definition(f, func_def),
        ExternalDeclaration::Declaration(decl) => fold_declaration(f, decl),
    }
}

/// The folder and the result after folding `node` as `fold_function_definition` does.
pub open spec fn folded_function_definition<F: CSTFolder>(f: F, node: FunctionDefinition) -> (F, F::Result)
    decreases node,
{
    match node {
        FunctionDefinition::WithSpecifiers { declaration_specifiers, declarator, declaration_list, body } => {
            let (f1, decl_spec) = folded_declaration_specifiers(f, declaration_specifiers);
            let (f2, declarator) = folded_declarator(f1, declarator);
            let (f3, decl_list) = match declaration_list {
                Some(x) => folded_declaration_seq(f2, x.0@),
                None => (f2, Seq::empty()),
            };
            let (f4, body) = folded_compound_statement(f3, body);
            f4.on_function_definition_with(decl_spec, declarator, decl_list, body)
        },
        FunctionDefinition::WithoutSpecifiers { declarator, declaration_list, body } => {
            let (f1, declarator) = folded_declarator(f, declarator);
            let (f2, decl_list) = match declaration_list {
                Some(x) => folded_declaration_seq(f1, x.0@),
                None => (f1, Seq::empty()),
            };
            let (f3, body) = folded_compound_statement(f2, body);
            f3.on_function_definition_without(declarator, decl_list, body)
        },
    }
}

/// Folds a function definition; an absent declaration list folds as an
/// empty one.
pub fn fold_function_definition<F: CSTFolder>(f: &mut F, node: FunctionDefinition) -> (r: F::Result)
    ensures
        F::obeys_fold_spec() ==> (*final(f), r) == folded_function_definition(*old(f), node),
    decreases node,
{
    match node {
        FunctionDefinition::WithSpecifiers { declaration_specifiers, declarator, declaration_list, body } => {
            let decl_spec = fold_declaration_specifiers(f, declaration_specifiers);
            let declarator = fold_declarator(f, declarator);
            let decl_list = match declaration_list {
                Some(x) => fold_declaration_vec(f, x.0),
                None => Vec::new(),
            };
            let body = fold_compound_statement(f, body);
            f.fold_function_definition_with(decl_spec, declarator, decl_list, body)
        },
        FunctionDefinition::WithoutSpecifiers { declarator, declaration_list, body } => {
            let declarator = fold_declarator(f, declarator);
            let decl_list = match declaration_list {
                Some(x) => fold_declaration_vec(f, x.0),
                None => Vec::new(),
            };
            let body = fold_compound_statement(f, body);
            f.fold_function_definition_without(declarator, decl_list, body)
        },
    }
}

/// The folder and the result after folding `node` as `fold_declaration` does.
pub open spec fn folded_declaration<F: CSTFolder>(f: F, node: Declaration) -> (F, F::Result)
    decreases node,
{
    let (f1, decl_specifiers) = folded_declaration_specifiers(f, node.specifiers);
    let (f2, init_decl) = match node.init_declarators {
        Some(x) => folded_init_declarator_seq(f1, x.0@),
        None => (f1, Seq::empty()),
    };
    f2.on_declaration_node(decl_specifiers, init_decl)
}

/// Folds a declaration; absent declarators fold as an empty list.
pub fn fold_declaration<F: CSTFolder>(f: &mut F, node: Declaration) -> (r: F::Result)
    ensures
        F::obeys_fold_spec() ==> (*final(f), r) == folded_declaration(*old(f), node),
    decreases node,
{
    let decl_specifiers = fold_declaration_specifiers(f, node.specifiers);
    let init_decl = match node.init_declarators {
        Some(x) => fold_init_declarator_vec(f, x.0),
        None => Vec::new(),
    };
    f.fold_declaration_node(decl_specifiers, init_decl)
}

/// The folder and the result after folding `node` as `fold_init_declarator` does.
pub open spec fn folded_init_declarator<F: CSTFolder>(f: F, node: InitDeclarator) -> (F, F::Result)
    decreases node,
{
    match node {
        InitDeclarator::Plain(declarator) => folded_declarator(f, declarator),
        InitDeclarator::Initialized(declarator, initializer) => {
            let (f1, declarator) = folded_declarator(f, declarator);
            let (f2, initializer) = folded_initializer(f1, initializer);
            f2.on_init_declarator_node(declarator, initializer)
        },
    }
}

/// Folds a declarator with its initializer, if any.
pub fn fold_init_declarator<F: CSTFolder>(f: &mut F, node: InitDeclarator) -> (r: F::Result)
    ensures
        F::obeys_fold_spec() ==> (*final(f), r) == folded_init_declarator(*old(f), node),
    decreases node,
{
    match node {
        InitDeclarator::Plain(declarator) => fold_declarator(f, declarator),
        InitDeclarator::Initialized(declarator, initializer) => {
            let declarator = fold_declarator(f, declarator);
            let initializer = fold_initializer(f, initializer);
            f.fold_init_declarator_node(declarator, initializer)
        },
    }
}

/// The folder and the result after folding `node` as `fold_declaration_specifiers` does.
pub open spec fn folded_declaration_specifiers<F: CSTFolder>(f: F, node: DeclarationSpecifiers) -> (F, F::Result)
    decreases node,
{
    match node {
        DeclarationSpecifiers::StorageClass(storage_class_specifier, decl_specifiers) => {
            let (f1, storage_class_specifier) = f.on_storage_class_specifier(storage_class_specifier);
            let (f2, decl_specifiers) = match decl_specifiers {
                Some(x) => {
                    let (g, y) = folded_declaration_specifiers(f1, *x);
                    (g, Some(y))
                },
                None => (f1, None),
            };
            f2.on_declaration_specifiers_storage_class(storage_class_specifier, decl_specifiers)
        },
        DeclarationSpecifiers::TypeSpecifier(type_specifier, decl_specifiers) => {
            let (f1, type_specifier) = f.on_type_specifier(type_specifier);
            let (f2, decl_specifiers) = match decl_specifiers {
                Some(x) => {
                    let (g, y) = folded_declaration_specifiers(f1, *x);
                    (g, Some(y))
                },
                None => (f1, None),
            };
            f2.on_declaration_specifiers_type_specifier(type_specifier, decl_specifiers)
        },
        DeclarationSpecifiers::TypeQualifier(type_qual, decl_specifiers) => {
            let (f1, type_qualifier) = f.on_type_qualifier(type_qual);
            let (f2, decl_specifiers) = match decl_specifiers {
                Some(x) => {
                    let (g, y) = folded_declaration_specifiers(f1, *x);
                    (g, Some(y))
                },
                None => (f1, None),
            };
            f2.on_declaration_specifiers_type_qualifier(type_qualifier, decl_specifiers)
        },
    }
}

/// Folds declaration specifiers, the first one before the rest.
pub fn fold_declaration_specifiers<F: CSTFolder>(f: &mut F, node: DeclarationSpecifiers) -> (r: F::Result)
    ensures
        F::obeys_fold_spec() ==> (*final(f), r) == folded_declaration_specifiers(*old(f), node),
    decreases node,
{
    match node {
        DeclarationSpecifiers::StorageClass(storage_class_specifier, decl_specifiers) => {
            let storage_class_specifier = f.fold_storage_class_specifier(storage_class_specifier);
            let decl_specifiers = match decl_specifiers {
                Some(x) => Some(fold_declaration_specifiers(f, *x)),
                None => None,
            };
            f.fold_declaration_specifiers_storage_class(storage_class_specifier, decl_specifiers)
        },
        DeclarationSpecifiers::TypeSpecifier(type_specifier, decl_specifiers) => {
            let type_specifier = f.fold_type_specifier(type_specifier);
            let decl_specifiers = match decl_specifiers {
                Some(x) => Some(fold_declaration_specifiers(f, *x)),
                None => None,
            };
            f.fold_declaration_specifiers_type_specifier(type_specifier, decl_specifiers)
        },
        DeclarationSpecifiers::TypeQualifier(type_qual, decl_specifiers) => {
            let type_qualifier = f.fold_type_qualifier(type_qual);
            let decl_specifiers = match decl_specifiers {
                Some(x) => Some(fold_declaration_specifiers(f, *x)),
                None => None,
            };
            f.fold_declaration_specifiers_type_qualifier(type_qualifier, decl_specifiers)
        },
    }
}

/// The folder and the result after folding `node` as `fold_struct_or_union_specifier` does.
pub open spec fn folded_struct_or_union_specifier<F: CSTFolder>(f: F, node: StructOrUnionSpecifier) -> (F, F::Result)
    decreases node,
{
    match node {
        StructOrUnionSpecifier::Defined { kind, name, fields } => {
            let (f1, kind) = f.on_struct_or_union(kind);
            let (f2, fields) = folded_struct_declaration_seq(f1, fields@);
            f2.on_struct_or_union_specifier_defined(kind, name, fields)
        },
        StructOrUnionSpecifier::Named { kind, name } => {
            let (f1, kind) = f.on_struct_or_union(kind);
            f1.on_struct_or_union_specifier_named(kind, name)
        },
    }
}

/// Folds a struct or union specifier.
pub fn fold_struct_or_union_specifier<F: CSTFolder>(f: &mut F, node: StructOrUnionSpecifier) -> (r: F::Result)
    ensures
        F::obeys_fold_spec() ==> (*final(f), r) == folded_struct_or_union_specifier(*old(f), node),
    decreases node,
{
    match node {
        StructOrUnionSpecifier::Defined { kind, name, fields } => {
            let kind = f.fold_struct_or_union(kind);
            let fields = fold_struct_declaration_vec(f, fields);
            f.fold_struct_or_union_specifier_defined(kind, name, fields)
        },
        StructOrUnionSpecifier::Named { kind, name } => {
            let kind = f.fold_struct_or_union(kind);
            f.fold_struct_or_union_specifier_named(kind, name)
        },
    }
}

/// The folder and the result after folding `node` as `fold_struct_declaration` does.
pub open spec fn folded_struct_declaration<F: CSTFolder>(f: F, node: StructDeclaration) -> (F, F::Result)
    decreases node,
{
    let (f1, specifiers) = folded_specifier_qualifier_list(f, node.specifiers);
    let (f2, declarators) = folded_struct_declarator_seq(f1, node.declarators@);
    f2.on_struct_declaration_node(specifiers, declarators)
}

/// Folds a member declaration.
pub fn fold_struct_declaration<F: CSTFolder>(f: &mut F, node: StructDeclaration) -> (r: F::Result)
    ensures
        F::obeys_fold_spec() ==> (*final(f), r) == folded_struct_declaration(*old(f), node),
    decreases node,
{
    let specifiers = fold_specifier_qualifier_list(f, node.specifiers);
    let declarators = fold_struct_declarator_vec(f, node.declarators);
    f.fold_struct_declaration_node(specifiers, declarators)
}

/// The folder and the result after folding `node` as `fold_struct_declarator` does.
pub open spec fn folded_struct_declarator<F: CSTFolder>(f: F, node: StructDeclarator) -> (F, F::Result)
    decreases node,
{
    match node {
        StructDeclarator::Declarator(declarator) => folded_declarator(f, declarator),
        StructDeclarator::Bitfield(declarator, constexpr) => {
            let (f1, declarator) = match declarator {
                Some(x) => {
                    let (g, y) = folded_declarator(f, x);
                    (g, Some(y))
                },
                None => (f, None),
            };
            let (f2, constexpr) = folded_constant_expression(f1, constexpr);
            f2.on_struct_declarator_node(declarator, constexpr)
        },
    }
}

/// Folds a member declarator.
pub fn fold_struct_declarator<F: CSTFolder>(f: &mut F, node: StructDeclarator) -> (r: F::Result)
    ensures
        F::obeys_fold_spec() ==> (*final(f), r) == folded_struct_declarator(*old(f), node),
    decreases node,
{
    match node {
        StructDeclarator::Declarator(declarator) => fold_declarator(f, declarator),
        StructDeclarator::Bitfield(declarator, constexpr) => {
            let declarator = match declarator {
                Some(x) => Some(fold_declarator(f, x)),
                None => None,
            };
            let constexpr = fold_constant_expression(f, constexpr);
            f.fold_struct_declarator_node(declarator, constexpr)
        },
    }
}

/// The folder and the result after folding `node` as `fold_enum_specifier` does.
pub open spec fn folded_enum_specifier<F: CSTFolder>(f: F, node: EnumSpecifier) -> (F, F::Result)
    decreases node,
{
    match node {
        EnumSpecifier::Defined { name, enumerators } => {
            let (f1, name) = match name {
                Some(x) => {
                    let (g, y) = f.on_token(x);
                    (g, Some(y))
                },
                None => (f, None),
            };
            let (f2, enumerators) = folded_enumerator_seq(f1, enumerators@);
            f2.on_enum_specifier_node(name, enumerators)
        },
        EnumSpecifier::Named(name) => f.on_token(name),
    }
}

/// Folds an enum specifier; a reference by tag folds to its name.
pub fn fold_enum_specifier<F: CSTFolder>(f: &mut F, node: EnumSpecifier) -> (r: F::Result)
    ensures
        F::obeys_fold_spec() ==> (*final(f), r) == folded_enum_specifier(*old(f), node),
    decreases node,
{
    match node {
        EnumSpecifier::Defined { name, enumerators } => {
            let name = match name {
                Some(x) => Some(f.fold_token(x)),
                None => None,
            };
            let enumerators = fold_enumerator_vec(f, enumerators);
            f.fold_enum_specifier_node(name, enumerators)
        },
        EnumSpecifier::Named(name) => f.fold_token(name),
    }
}

/// The folder and the result after folding `node` as `fold_enumerator` does.
pub open spec fn folded_enumerator<F: CSTFolder>(f: F, node: Enumerator) -> (F, F::Result)
    decreases node,
{
    match node {
        Enumerator::Plain(token) => f.on_token(token),
        Enumerator::WithValue(token, constexpr) => {
            let (f1, constexpr) = folded_constant_expression(f, constexpr);
            f1.on_enumerator_node(token, constexpr)
        },
    }
}

/// Folds an enumerator; one without value folds to its name.
pub fn fold_enumerator<F: CSTFolder>(f: &mut F, node: Enumerator) -> (r: F::Result)
    ensures
        F::obeys_fold_spec() ==> (*final(f), r) == folded_enumerator(*old(f), node),
    decreases node,
{
    match node {
        Enumerator::Plain(token) => f.fold_token(token),
        Enumerator::WithValue(token, constexpr) => {
            let constexpr = fold_constant_expression(f, constexpr);
            f.fold_enumerator_node(token, constexpr)
        },
    }
}

/// The folder and the result after folding `node` as `fold_declarator` does.
pub open spec fn folded_declarator<F: CSTFolder>(f: F, node: Declarator) -> (F, F::Result)
    decreases node,
{
    let (f1, pointer) = match node.pointer {
        Some(x) => {
            let (g, y) = folded_pointer(f, x);
            (g, Some(y))
        },
        None => (f, None),
    };
    let (f2, direct) = folded_direct_declarator(f1, node.direct);
    f2.on_declarator_node(pointer, direct)
}

/// Folds a declarator.
pub fn fold_declarator<F: CSTFolder>(f: &mut F, node: Declarator) -> (r: F::Result)
    ensures
        F::obeys_fold_spec() ==> (*final(f), r) == folded_declarator(*old(f), node),
    decreases node,
{
    let pointer = match node.pointer {
        Some(x) => Some(fold_pointer(f, x)),
        None => None,
    };
    let direct = fold_direct_declarator(f, node.direct);
    f.fold_declarator_node(pointer, direct)
}

/// The folder and the result after folding `node` as `fold_pointer` does.
pub open spec fn folded_pointer<F: CSTFolder>(f: F, node: Pointer) -> (F, F::Result)
    decreases node,
{
    match node {
        Pointer::Single(type_quals, pointer) => {
            let (f1, type_quals) = folded_type_qualifier_seq(f, type_quals@);
            let (f2, pointer) = match pointer {
                Some(x) => {
                    let (g, y) = folded_pointer(f1, *x);
                    (g, Some(y))
                },
                None => (f1, None),
            };
            f2.on_pointer_node(type_quals, pointer)
        },
    }
}

/// Folds a pointer, its qualifiers and the pointer after it.
pub fn fold_pointer<F: CSTFolder>(f: &mut F, node: Pointer) -> (r: F::Result)
    ensures
        F::obeys_fold_spec() ==> (*final(f), r) == folded_pointer(*old(f), node),
    decreases node,
{
    match node {
        Pointer::Single(type_quals, pointer) => {
            let type_quals = fold_type_qualifier_vec(f, type_quals);
            let pointer = match pointer {
                Some(x) => Some(fold_pointer(f, *x)),
                None => None,
            };
            f.fold_pointer_node(type_quals, pointer)
        },
    }
}

/// The folder and the result after folding `node` as `fold_direct_declarator` does.
pub open spec fn folded_direct_declarator<F: CSTFolder>(f: F, node: DirectDeclarator) -> (F, F::Result)
    decreases node,
{
    match node {
        DirectDeclarator::Id(token) => f.on_token(token),
        DirectDeclarator::Paren(declarator) => folded_declarator(f, *declarator),
        DirectDeclarator::Array(direct_declarator, constexpr) => {
            let (f1, direct_declarator) = folded_direct_declarator(f, *direct_declarator);
            let (f2, constexpr) = match constexpr {
                Some(x) => {
                    let (g, y) = folded_constant_expression(f1, x);
                    (g, Some(y))
                },
                None => (f1, None),
            };
            f2.on_direct_declarator_array(direct_declarator, constexpr)
        },
        DirectDeclarator::FuncParams(direct_declarator, parameter_type_list) => {
            let (f1, direct_declarator) = folded_direct_declarator(f, *direct_declarator);
            let (f2, parameter_type_list) = folded_parameter_type_list(f1, parameter_type_list);
            f2.on_direct_declarator_func_params(direct_declarator, parameter_type_list)
        },
        DirectDeclarator::FuncIdentifiers(direct_declarator, idents) => {
            let (f1, direct_declarator) = folded_direct_declarator(f, *direct_declarator);
            let idents = match idents {
                Some(x) => x.0@,
                None => Seq::empty(),
            };
            f1.on_direct_declarator_func_idents(direct_declarator, idents)
        },
    }
}

/// Folds a direct declarator; a name folds as a token, and a declarator in
/// parentheses as that declarator.
pub fn fold_direct_declarator<F: CSTFolder>(f: &mut F, node: DirectDeclarator) -> (r: F::Result)
    ensures
        F::obeys_fold_spec() ==> (*final(f), r) == folded_direct_declarator(*old(f), node),
    decreases node,
{
    match node {
        DirectDeclarator::Id(token) => f.fold_token(token),
        DirectDeclarator::Paren(declarator) => fold_declarator(f, *declarator),
        DirectDeclarator::Array(direct_declarator, constexpr) => {
            let direct_declarator = fold_direct_declarator(f, *direct_declarator);
            let constexpr = match constexpr {
                Some(x) => Some(fold_constant_expression(f, x)),
                None => None,
            };
            f.fold_direct_declarator_array(direct_declarator, constexpr)
        },
        DirectDeclarator::FuncParams(direct_declarator, parameter_type_list) => {
            let direct_declarator = fold_direct_declarator(f, *direct_declarator);
            let parameter_type_list = fold_parameter_type_list(f, parameter_type_list);
            f.fold_direct_declarator_func_params(direct_declarator, parameter_type_list)
        },
        DirectDeclarator::FuncIdentifiers(direct_declarator, idents) => {
            let direct_declarator = fold_direct_declarator(f, *direct_declarator);
            let idents = match idents {
                Some(x) => x.0,
                None => Vec::new(),
            };
            f.fold_direct_declarator_func_idents(direct_declarator, idents)
        },
    }
}

/// The folder and the result after folding `node` as `fold_statement` does.
pub open spec fn folded_statement<F: CSTFolder>(f: F, node: Statement) -> (F, F::Result)
    decreases node,
{
    match node {
        Statement::Labeled(labeled_stmt) => folded_labeled_statement(f, labeled_stmt),
        Statement::Compound(compound_stmt) => folded_compound_statement(f, compound_stmt),
        Statement::Expression(expr_stmt) => folded_expression_statement(f, expr_stmt),
        Statement::Selection(selection_stmt) => folded_selection_statement(f, selection_stmt),
        Statement::Iteration(iter_stmt) => folded_iteration_statement(f, iter_stmt),
        Statement::Jump(jmp_stmt) => folded_jump_statement(f, jmp_stmt),
    }
}

/// Folds a statement.
pub fn fold_statement<F: CSTFolder>(f: &mut F, node: Statement) -> (r: F::Result)
    ensures
        F::obeys_fold_spec() ==> (*final(f), r) == folded_statement(*old(f), node),
    decreases node,
{
    match node {
        Statement::Labeled(labeled_stmt) => fold_labeled_statement(f, labeled_stmt),
        Statement::Compound(compound_stmt) => fold_compound_statement(f, compound_stmt),
        Statement::Expression(expr_stmt) => fold_expression_statement(f, expr_stmt),
        Statement::Selection(selection_stmt) => fold_selection_statement(f, selection_stmt),
        Statement::Iteration(iter_stmt) => fold_iteration_statement(f, iter_stmt),
        Statement::Jump(jmp_stmt) => fold_jump_statement(f, jmp_stmt),
    }
}

/// The folder and the result after folding `node` as `fold_labeled_statement` does.
pub open spec fn folded_labeled_statement<F: CSTFolder>(f: F, node: LabeledStatement) -> (F, F::Result)
    decreases node,
{
    match node {
        LabeledStatement::Label(token, stmt) => {
            let (f1, stmt) = folded_statement(f, *stmt);
            f1.on_labeled_statement_label(token, stmt)
        },
        LabeledStatement::Case(constexpr, stmt) => {
            let (f1, constexpr) = folded_constant_expression(f, constexpr);
            let (f2, stmt) = folded_statement(f1, *stmt);
            f2.on_labeled_statement_case(constexpr, stmt)
        },
        LabeledStatement::Default(stmt) => folded_statement(f, *stmt),
    }
}

/// Folds a labeled statement; after `default` it folds to the statement.
pub fn fold_labeled_statement<F: CSTFolder>(f: &mut F, node: LabeledStatement) -> (r: F::Result)
    ensures
        F::obeys_fold_spec() ==> (*final(f), r) == folded_labeled_statement(*old(f), node),
    decreases node,
{
    match node {
        LabeledStatement::Label(token, stmt) => {
            let stmt = fold_statement(f, *stmt);
            f.fold_labeled_statement_label(token, stmt)
        },
        LabeledStatement::Case(constexpr, stmt) => {
            let constexpr = fold_constant_expression(f, constexpr);
            let stmt = fold_statement(f, *stmt);
            f.fold_labeled_statement_case(constexpr, stmt)
        },
        LabeledStatement::Default(stmt) => fold_statement(f, *stmt),
    }
}

/// The folder and the result after folding `node` as `fold_compound_statement` does.
pub open spec fn folded_compound_statement<F: CSTFolder>(f: F, node: CompoundStatement) -> (F, F::Result)
    decreases node,
{
    match node {
        CompoundStatement::Empty(x) => f.on_token(x),
        CompoundStatement::Block(block_items) => {
            let (f1, block_items) = folded_block_item_seq(f, block_items@);
            f1.on_compound_statement_node(block_items)
        },
    }
}

/// Folds a compound statement; empty braces fold as their token.
pub fn fold_compound_statement<F: CSTFolder>(f: &mut F, node: CompoundStatement) -> (r: F::Result)
    ensures
        F::obeys_fold_spec() ==> (*final(f), r) == folded_compound_statement(*old(f), node),
    decreases node,
{
    match node {
        CompoundStatement::Empty(x) => f.fold_token(x),
        CompoundStatement::Block(block_items) => {
            let block_items = fold_block_item_vec(f, block_items);
            f.fold_compound_statement_node(block_items)
        },
    }
}

/// The folder and the result after folding `node` as `fold_block_item` does.
pub open spec fn folded_block_item<F: CSTFolder>(f: F, node: BlockItem) -> (F, F::Result)
    decreases node,
{
    match node {
        BlockItem::Declaration(x) => folded_declaration(f, x),
        BlockItem::Statement(x) => folded_statement(f, x),
    }
}

/// Folds a block item.
pub fn fold_block_item<F: CSTFolder>(f: &mut F, node: BlockItem) -> (r: F::Result)
    ensures
        F::obeys_fold_spec() ==> (*final(f), r) == folded_block_item(*old(f), node),
    decreases node,
{
    match node {
        BlockItem::Declaration(x) => fold_declaration(f, x),
        BlockItem::Statement(x) => fold_statement(f, x),
    }
}

/// The folder and the result after folding `node` as `fold_expression_statement` does.
pub open spec fn folded_expression_statement<F: CSTFolder>(f: F, node: ExpressionStatement) -> (F, F::Result)
    decreases node,
{
    match node {
        ExpressionStatement::Empty(x) => f.on_token(x),
        ExpressionStatement::Expr(x) => folded_expression(f, x),
    }
}

/// Folds an expression statement; a lone `;` folds as its token.
pub fn fold_expression_statement<F: CSTFolder>(f: &mut F, node: ExpressionStatement) -> (r: F::Result)
    ensures
        F::obeys_fold_spec() ==> (*final(f), r) == folded_expression_statement(*old(f), node),
    decreases node,
{
    match node {
        ExpressionStatement::Empty(x) => f.fold_token(x),
        ExpressionStatement::Expr(x) => fold_expression(f, x),
    }
}

/// The folder and the result after folding `node` as `fold_selection_statement` does.
pub open spec fn folded_selection_statement<F: CSTFolder>(f: F, node: SelectionStatement) -> (F, F::Result)
    decreases node,
{
    match node {
        SelectionStatement::If { cond, then_stmt, else_stmt } => {
            let (f1, cond) = folded_expression(f, cond);
            let (f2, then_stmt) = folded_statement(f1, *then_stmt);
            let (f3, else_stmt) = match else_stmt {
                Some(x) => {
                    let (g, y) = folded_statement(f2, *x);
                    (g, Some(y))
                },
                None => (f2, None),
            };
            f3.on_selection_statement_if(cond, then_stmt, else_stmt)
        },
        SelectionStatement::Switch { cond, body } => {
            let (f1, cond) = folded_expression(f, cond);
            let (f2, body) = folded_statement(f1, *body);
            f2.on_selection_statement_switch(cond, body)
        },
    }
}

/// Folds `if` and `switch`.
pub fn fold_selection_statement<F: CSTFolder>(f: &mut F, node: SelectionStatement) -> (r: F::Result)
    ensures
        F::obeys_fold_spec() ==> (*final(f), r) == folded_selection_statement(*old(f), node),
    decreases node,
{
    match node {
        SelectionStatement::If { cond, then_stmt, else_stmt } => {
            let cond = fold_expression(f, cond);
            let then_stmt = fold_statement(f, *then_stmt);
            let else_stmt = match else_stmt {
                Some(x) => Some(fold_statement(f, *x)),
                None => None,
            };
            f.fold_selection_statement_if(cond, then_stmt, else_stmt)
        },
        SelectionStatement::Switch { cond, body } => {
            let cond = fold_expression(f, cond);
            let body = fold_statement(f, *body);
            f.fold_selection_statement_switch(cond, body)
        },
    }
}

/// The folder and the result after folding `node` as `fold_iteration_statement` does.
pub open spec fn folded_iteration_statement<F: CSTFolder>(f: F, node: IterationStatement) -> (F, F::Result)
    decreases node,
{
    match node {
        IterationStatement::While { cond, body } => {
            let (f1, cond) = folded_expression(f, cond);
            let (f2, body) = folded_statement(f1, *body);
            f2.on_iteration_statement_while(cond, body)
        },
        IterationStatement::DoWhile { body, cond } => {
            let (f1, cond) = folded_expression(f, cond);
            let (f2, body) = folded_statement(f1, *body);
            f2.on_iteration_statement_do_while(cond, body)
        },
        IterationStatement::For { init, cond, step, body } => {
            let (f1, init) = match init {
                Some(x) => {
                    let (g, y) = folded_expression(f, x);
                    (g, Some(y))
                },
                None => (f, None),
            };
            let (f2, cond) = match cond {
                Some(x) => {
                    let (g, y) = folded_expression(f1, x);
                    (g, Some(y))
                },
                None => (f1, None),
            };
            let (f3, step) = match step {
                Some(x) => {
                    let (g, y) = folded_expression(f2, x);
                    (g, Some(y))
                },
                None => (f2, None),
            };
            let (f4, body) = folded_statement(f3, *body);
            f4.on_iteration_statement_for(init, cond, step, body)
        },
    }
}

/// Folds the loops; of `do ... while`, the condition is folded first.
pub fn fold_iteration_statement<F: CSTFolder>(f: &mut F, node: IterationStatement) -> (r: F::Result)
    ensures
        F::obeys_fold_spec() ==> (*final(f), r) == folded_iteration_statement(*old(f), node),
    decreases node,
{
    match node {
        IterationStatement::While { cond, body } => {
            let cond = fold_expression(f, cond);
            let body = fold_statement(f, *body);
            f.fold_iteration_statement_while(cond, body)
        },
        IterationStatement::DoWhile { body, cond } => {
            let cond = fold_expression(f, cond);
            let body = fold_statement(f, *body);
            f.fold_iteration_statement_do_while(cond, body)
        },
        IterationStatement::For { init, cond, step, body } => {
            let init = match init {
                Some(x) => Some(fold_expression(f, x)),
                None => None,
            };
            let cond = match cond {
                Some(x) => Some(fold_expression(f, x)),
                None => None,
            };
            let step = match step {
                Some(x) => Some(fold_expression(f, x)),
                None => None,
            };
            let body = fold_statement(f, *body);
            f.fold_iteration_statement_for(init, cond, step, body)
        },
    }
}

/// The folder and the result after folding `node` as `fold_jump_statement` does.
pub open spec fn folded_jump_statement<F: CSTFolder>(f: F, node: JumpStatement) -> (F, F::Result)
    decreases node,
{
    match node {
        JumpStatement::Goto(x) => f.on_token(x),
        JumpStatement::Continue(x) => f.on_token(x),
        JumpStatement::Break(x) => f.on_token(x),
        JumpStatement::Return(expr) => {
            let (f1, expr) = match expr {
                Some(x) => {
                    let (g, y) = folded_expression(f, x);
                    (g, Some(y))
                },
                None => (f, None),
            };
            f1.on_jump_statement_return(expr)
        },
    }
}

/// Folds a jump; `goto`, `continue` and `break` fold as their token.
pub fn fold_jump_statement<F: CSTFolder>(f: &mut F, node: JumpStatement) -> (r: F::Result)
    ensures
        F::obeys_fold_spec() ==> (*final(f), r) == folded_jump_statement(*old(f), node),
    decreases node,
{
    match node {
        JumpStatement::Goto(x) => f.fold_token(x),
        JumpStatement::Continue(x) => f.fold_token(x),
        JumpStatement::Break(x) => f.fold_token(x),
        JumpStatement::Return(expr) => {
            let expr = match expr {
                Some(x) => Some(fold_expression(f, x)),
                None => None,
            };
            f.fold_jump_statement_return(expr)
        },
    }
}

/// The folder and the result after folding `node` as `fold_primary_expression` does.
pub open spec fn folded_primary_expression<F: CSTFolder>(f: F, node: PrimaryExpression) -> (F, F::Result)
    decreases node,
{
    match node {
        PrimaryExpression::Id(x) => f.on_token(x),
        PrimaryExpression::Constant(x) => f.on_constant(x),
        PrimaryExpression::StringLiteral(x) => f.on_primary_expressing_string_literal(x@),
        PrimaryExpression::Paren(x) => folded_expression(f, *x),
    }
}

/// Folds a primary expression; one in parentheses folds as its inside.
pub fn fold_primary_expression<F: CSTFolder>(f: &mut F, node: PrimaryExpression) -> (r: F::Result)
    ensures
        F::obeys_fold_spec() ==> (*final(f), r) == folded_primary_expression(*old(f), node),
    decreases node,
{
    match node {
        PrimaryExpression::Id(x) => f.fold_token(x),
        PrimaryExpression::Constant(x) => f.fold_constant(x),
        PrimaryExpression::StringLiteral(x) => f.fold_primary_expressing_string_literal(x),
        PrimaryExpression::Paren(x) => fold_expression(f, *x),
    }
}

/// The folder and the result after folding `node` as `fold_postfix_expression` does.
pub open spec fn folded_postfix_expression<F: CSTFolder>(f: F, node: PostfixExpression) -> (F, F::Result)
    decreases node,
{
    match node {
        PostfixExpression::Primary(x) => folded_primary_expression(f, x),
        PostfixExpression::Array(post_expr, expr) => {
            let (f1, post_expr) = folded_postfix_expression(f, *post_expr);
            let (f2, expr) = folded_expression(f1, *expr);
            f2.on_postfix_expression_array(post_expr, expr)
        },
        PostfixExpression::Call(post_expr, arg_expr_list) => {
            let (f1, post_expr) = folded_postfix_expression(f, *post_expr);
            f1.on_postfix_expression_call(post_expr, arg_expr_list)
        },
        PostfixExpression::Field(post_expr, token) => {
            let (f1, post_expr) = folded_postfix_expression(f, *post_expr);
            f1.on_postfix_expression_field(post_expr, token)
        },
        PostfixExpression::Arrow(post_expr, token) => {
            let (f1, post_expr) = folded_postfix_expression(f, *post_expr);
            f1.on_postfix_expression_arrow(post_expr, token)
        },
        PostfixExpression::Inc(post_expr) => folded_postfix_expression(f, *post_expr),
        PostfixExpression::Dec(post_expr) => folded_postfix_expression(f, *post_expr),
    }
}

/// Folds a postfix expression; `++` and `--` fold as their operand.
pub fn fold_postfix_expression<F: CSTFolder>(f: &mut F, node: PostfixExpression) -> (r: F::Result)
    ensures
        F::obeys_fold_spec() ==> (*final(f), r) == folded_postfix_expression(*old(f), node),
    decreases node,
{
    match node {
        PostfixExpression::Primary(x) => fold_primary_expression(f, x),
        PostfixExpression::Array(post_expr, expr) => {
            let post_expr = fold_postfix_expression(f, *post_expr);
            let expr = fold_expression(f, *expr);
            f.fold_postfix_expression_array(post_expr, expr)
        },
        PostfixExpression::Call(post_expr, arg_expr_list) => {
            let post_expr = fold_postfix_expression(f, *post_expr);
            f.fold_postfix_expression_call(post_expr, arg_expr_list)
        },
        PostfixExpression::Field(post_expr, token) => {
            let post_expr = fold_postfix_expression(f, *post_expr);
            f.fold_postfix_expression_field(post_expr, token)
        },
        PostfixExpression::Arrow(post_expr, token) => {
            let post_expr = fold_postfix_expression(f, *post_expr);
            f.fold_postfix_expression_arrow(post_expr, token)
        },
        PostfixExpression::Inc(post_expr) => fold_postfix_expression(f, *post_expr),
        PostfixExpression::Dec(post_expr) => fold_postfix_expression(f, *post_expr),
    }
}

/// The folder and the result after folding `node` as `fold_unary_expression` does.
pub open spec fn folded_unary_expression<F: CSTFolder>(f: F, node: UnaryExpression) -> (F, F::Result)
    decreases node,
{
    match node {
        UnaryExpression::Postfix(x) => folded_postfix_expression(f, x),
        UnaryExpression::PreInc(x) => folded_unary_expression(f, *x),
        UnaryExpression::PreDec(x) => folded_unary_expression(f, *x),
        UnaryExpression::UnaryOp(unary_op, cast_expr) => {
            let (f1, unary_op) = f.on_unary_operator(unary_op);
            let (f2, cast_expr) = folded_cast_expression(f1, *cast_expr);
            f2.on_unary_expression_unary_op(unary_op, cast_expr)
        },
        UnaryExpression::SizeofExpr(x) => folded_unary_expression(f, *x),
        UnaryExpression::SizeofType(x) => folded_type_name(f, *x),
    }
}

/// Folds a unary expression; prefix `++`, `--` and `sizeof` fold as their
/// operand.
pub fn fold_unary_expression<F: CSTFolder>(f: &mut F, node: UnaryExpression) -> (r: F::Result)
    ensures
        F::obeys_fold_spec() ==> (*final(f), r) == folded_unary_expression(*old(f), node),
    decreases node,
{
    match node {
        UnaryExpression::Postfix(x) => fold_postfix_expression(f, x),
        UnaryExpression::PreInc(x) => fold_unary_expression(f, *x),
        UnaryExpression::PreDec(x) => fold_unary_expression(f, *x),
        UnaryExpression::UnaryOp(unary_op, cast_expr) => {
            let unary_op = f.fold_unary_operator(unary_op);
            let cast_expr = fold_cast_expression(f, *cast_expr);
            f.fold_unary_expression_unary_op(unary_op, cast_expr)
        },
        UnaryExpression::SizeofExpr(x) => fold_unary_expression(f, *x),
        UnaryExpression::SizeofType(x) => fold_type_name(f, *x),
    }
}

/// The folder and the result after folding `node` as `fold_cast_expression` does.
pub open spec fn folded_cast_expression<F: CSTFolder>(f: F, node: CastExpression) -> (F, F::Result)
    decreases node,
{
    match node {
        CastExpression::Cast(ty_name, cast_expr) => {
            let (f1, ty_name) = folded_type_name(f, *ty_name);
            let (f2, cast_expr) = folded_cast_expression(f1, *cast_expr);
            f2.on_cast_expression_cast(ty_name, cast_expr)
        },
        CastExpression::Unary(unary_expr) => folded_unary_expression(f, unary_expr),
    }
}

/// Folds a cast expression.
pub fn fold_cast_expression<F: CSTFolder>(f: &mut F, node: CastExpression) -> (r: F::Result)
    ensures
        F::obeys_fold_spec() ==> (*final(f), r) == folded_cast_expression(*old(f), node),
    decreases node,
{
    match node {
        CastExpression::Cast(ty_name, cast_expr) => {
            let ty_name = fold_type_name(f, *ty_name);
            let cast_expr = fold_cast_expression(f, *cast_expr);
            f.fold_cast_expression_cast(ty_name, cast_expr)
        },
        CastExpression::Unary(unary_expr) => fold_unary_expression(f, unary_expr),
    }
}

/// The folder and the result after folding `node` as `fold_multiplicative_expression` does.
pub open spec fn folded_multiplicative_expression<F: CSTFolder>(f: F, node: MultiplicativeExpression) -> (F, F::Result)
    decreases node,
{
    match node {
        MultiplicativeExpression::Mul(mul_expr, cast_expr) => {
            let (f1, mul_expr) = folded_multiplicative_expression(f, *mul_expr);
            let (f2, cast_expr) = folded_cast_expression(f1, cast_expr);
            f2.on_multiplicative_expression_mul(mul_expr, cast_expr)
        },
        MultiplicativeExpression::Div(mul_expr, cast_expr) => {
            let (f1, mul_expr) = folded_multiplicative_expression(f, *mul_expr);
            let (f2, cast_expr) = folded_cast_expression(f1, cast_expr);
            f2.on_multiplicative_expression_div(mul_expr, cast_expr)
        },
        MultiplicativeExpression::Mod(mul_expr, cast_expr) => {
            let (f1, mul_expr) = folded_multiplicative_expression(f, *mul_expr);
            let (f2, cast_expr) = folded_cast_expression(f1, cast_expr);
            f2.on_multiplicative_expression_mod(mul_expr, cast_expr)
        },
        MultiplicativeExpression::Cast(x) => folded_cast_expression(f, x),
    }
}

/// Folds `*`, `/` and `%`; one without operator folds as its operand.
pub fn fold_multiplicative_expression<F: CSTFolder>(f: &mut F, node: MultiplicativeExpression) -> (r: F::Result)
    ensures
        F::obeys_fold_spec() ==> (*final(f), r) == folded_multiplicative_expression(*old(f), node),
    decreases node,
{
    match node {
        MultiplicativeExpression::Mul(mul_expr, cast_expr) => {
            let mul_expr = fold_multiplicative_expression(f, *mul_expr);
            let cast_expr = fold_cast_expression(f, cast_expr);
            f.fold_multiplicative_expression_mul(mul_expr, cast_expr)
        },
        MultiplicativeExpression::Div(mul_expr, cast_expr) => {
            let mul_expr = fold_multiplicative_expression(f, *mul_expr);
            let cast_expr = fold_cast_expression(f, cast_expr);
            f.fold_multiplicative_expression_div(mul_expr, cast_expr)
        },
        MultiplicativeExpression::Mod(mul_expr, cast_expr) => {
            let mul_expr = fold_multiplicative_expression(f, *mul_expr);
            let cast_expr = fold_cast_expression(f, cast_expr);
            f.fold_multiplicative_expression_mod(mul_expr, cast_expr)
        },
        MultiplicativeExpression::Cast(x) => fold_cast_expression(f, x),
    }
}

/// The folder and the result after folding `node` as `fold_additive_expression` does.
pub open spec fn folded_additive_expression<F: CSTFolder>(f: F, node: AdditiveExpression) -> (F, F::Result)
    decreases node,
{
    match node {
        AdditiveExpression::Add(add_expr, mul_expr) => {
            let (f1, add_expr) = folded_additive_expression(f, *add_expr);
            let (f2, mul_expr) = folded_multiplicative_expression(f1, mul_expr);
            f2.on_additive_expression_add(add_expr, mul_expr)
        },
        AdditiveExpression::Sub(add_expr, mul_expr) => {
            let (f1, add_expr) = folded_additive_expression(f, *add_expr);
            let (f2, mul_expr) = folded_multiplicative_expression(f1, mul_expr);
            f2.on_additive_expression_sub(add_expr, mul_expr)
        },
        AdditiveExpression::Mul(x) => folded_multiplicative_expression(f, x),
    }
}

/// Folds `+` and `-`; one without operator folds as its operand.
pub fn fold_additive_expression<F: CSTFolder>(f: &mut F, node: AdditiveExpression) -> (r: F::Result)
    ensures
        F::obeys_fold_spec() ==> (*final(f), r) == folded_additive_expression(*old(f), node),
    decreases node,
{
    match node {
        AdditiveExpression::Add(add_expr, mul_expr) => {
            let add_expr = fold_additive_expression(f, *add_expr);
            let mul_expr = fold_multiplicative_expression(f, mul_expr);
            f.fold_additive_expression_add(add_expr, mul_expr)
        },
        AdditiveExpression::Sub(add_expr, mul_expr) => {
            let add_expr = fold_additive_expression(f, *add_expr);
            let mul_expr = fold_multiplicative_expression(f, mul_expr);
            f.fold_additive_expression_sub(add_expr, mul_expr)
        },
        AdditiveExpression::Mul(x) => fold_multiplicative_expression(f, x),
    }
}

/// The folder and the result after folding `node` as `fold_shift_expression` does.
pub open spec fn folded_shift_expression<F: CSTFolder>(f: F, node: ShiftExpression) -> (F, F::Result)
    decreases node,
{
    match node {
        ShiftExpression::Shl(shift_expr, add_expr) => {
            let (f1, shift_expr) = folded_shift_expression(f, *shift_expr);
            let (f2, add_expr) = folded_additive_expression(f1, add_expr);
            f2.on_shift_expression_shl(shift_expr, add_expr)
        },
        ShiftExpression::Shr(shift_expr, add_expr) => {
            let (f1, shift_expr) = folded_shift_expression(f, *shift_expr);
            let (f2, add_expr) = folded_additive_expression(f1, add_expr);
            f2.on_shift_expression_shr(shift_expr, add_expr)
        },
        ShiftExpression::Add(x) => folded_additive_expression(f, x),
    }
}

/// Folds `<<` and `>>`; one without operator folds as its operand.
pub fn fold_shift_expression<F: CSTFolder>(f: &mut F, node: ShiftExpression) -> (r: F::Result)
    ensures
        F::obeys_fold_spec() ==> (*final(f), r) == folded_shift_expression(*old(f), node),
    decreases node,
{
    match node {
        ShiftExpression::Shl(shift_expr, add_expr) => {
            let shift_expr = fold_shift_expression(f, *shift_expr);
            let add_expr = fold_additive_expression(f, add_expr);
            f.fold_shift_expression_shl(shift_expr, add_expr)
        },
        ShiftExpression::Shr(shift_expr, add_expr) => {
            let shift_expr = fold_shift_expression(f, *shift_expr);
            let add_expr = fold_additive_expression(f, add_expr);
            f.fold_shift_expression_shr(shift_expr, add_expr)
        },
        ShiftExpression::Add(x) => fold_additive_expression(f, x),
    }
}

/// The folder and the result after folding `node` as `fold_relational_expression` does.
pub open spec fn folded_relational_expression<F: CSTFolder>(f: F, node: RelationalExpression) -> (F, F::Result)
    decreases node,
{
    match node {
        RelationalExpression::Lt(relation_expr, shift_expr) => {
            let (f1, relation_expr) = folded_relational_expression(f, *relation_expr);
            let (f2, shift_expr) = folded_shift_expression(f1, shift_expr);
            f2.on_relational_expression_lt(relation_expr, shift_expr)
        },
        RelationalExpression::Gt(relation_expr, shift_expr) => {
            let (f1, relation_expr) = folded_relational_expression(f, *relation_expr);
            let (f2, shift_expr) = folded_shift_expression(f1, shift_expr);
            f2.on_relational_expression_gt(relation_expr, shift_expr)
        },
        RelationalExpression::Le(relation_expr, shift_expr) => {
            let (f1, relation_expr) = folded_relational_expression(f, *relation_expr);
            let (f2, shift_expr) = folded_shift_expression(f1, shift_expr);
            f2.on_relational_expression_le(relation_expr, shift_expr)
        },
        RelationalExpression::Ge(relation_expr, shift_expr) => {
            let (f1, relation_expr) = folded_relational_expression(f, *relation_expr);
            let (f2, shift_expr) = folded_shift_expression(f1, shift_expr);
            f2.on_relational_expression_ge(relation_expr, shift_expr)
        },
        RelationalExpression::Shift(x) => folded_shift_expression(f, x),
    }
}

/// Folds `<`, `>`, `<=` and `>=`; one without operator folds as its operand.
pub fn fold_relational_expression<F: CSTFolder>(f: &mut F, node: RelationalExpression) -> (r: F::Result)
    ensures
        F::obeys_fold_spec() ==> (*final(f), r) == folded_relational_expression(*old(f), node),
    decreases node,
{
    match node {
        RelationalExpression::Lt(relation_expr, shift_expr) => {
            let relation_expr = fold_relational_expression(f, *relation_expr);
            let shift_expr = fold_shift_expression(f, shift_expr);
            f.fold_relational_expression_lt(relation_expr, shift_expr)
        },
        RelationalExpression::Gt(relation_expr, shift_expr) => {
            let relation_expr = fold_relational_expression(f, *relation_expr);
            let shift_expr = fold_shift_expression(f, shift_expr);
            f.fold_relational_expression_gt(relation_expr, shift_expr)
        },
        RelationalExpression::Le(relation_expr, shift_expr) => {
            let relation_expr = fold_relational_expression(f, *relation_expr);
            let shift_expr = fold_shift_expression(f, shift_expr);
            f.fold_relational_expression_le(relation_expr, shift_expr)
        },
        RelationalExpression::Ge(relation_expr, shift_expr) => {
            let relation_expr = fold_relational_expression(f, *relation_expr);
            let shift_expr = fold_shift_expression(f, shift_expr);
            f.fold_relational_expression_ge(relation_expr, shift_expr)
        },
        RelationalExpression::Shift(x) => fold_shift_expression(f, x),
    }
}

/// The folder and the result after folding `node` as `fold_equality_expression` does.
pub open spec fn folded_equality_expression<F: CSTFolder>(f: F, node: EqualityExpression) -> (F, F::Result)
    decreases node,
{
    match node {
        EqualityExpression::Eq(eq_expr, relation_expr) => {
            let (f1, eq_expr) = folded_equality_expression(f, *eq_expr);
            let (f2, relation_expr) = folded_relational_expression(f1, relation_expr);
            f2.on_equality_expression_eq(eq_expr, relation_expr)
        },
        EqualityExpression::Ne(eq_expr, relation_expr) => {
            let (f1, eq_expr) = folded_equality_expression(f, *eq_expr);
            let (f2, relation_expr) = folded_relational_expression(f1, relation_expr);
            f2.on_equality_expression_ne(eq_expr, relation_expr)
        },
        EqualityExpression::Rel(x) => folded_relational_expression(f, x),
    }
}

/// Folds `==` and `!=`; one without operator folds as its operand.
pub fn fold_equality_expression<F: CSTFolder>(f: &mut F, node: EqualityExpression) -> (r: F::Result)
    ensures
        F::obeys_fold_spec() ==> (*final(f), r) == folded_equality_expression(*old(f), node),
    decreases node,
{
    match node {
        EqualityExpression::Eq(eq_expr, relation_expr) => {
            let eq_expr = fold_equality_expression(f, *eq_expr);
            let relation_expr = fold_relational_expression(f, relation_expr);
            f.fold_equality_expression_eq(eq_expr, relation_expr)
        },
        EqualityExpression::Ne(eq_expr, relation_expr) => {
            let eq_expr = fold_equality_expression(f, *eq_expr);
            let relation_expr = fold_relational_expression(f, relation_expr);
            f.fold_equality_expression_ne(eq_expr, relation_expr)
        },
        EqualityExpression::Rel(x) => fold_relational_expression(f, x),
    }
}

/// The folder and the result after folding `node` as `fold_and_expression` does.
pub open spec fn folded_and_expression<F: CSTFolder>(f: F, node: AndExpression) -> (F, F::Result)
    decreases node,
{
    match node {
        AndExpression::And(and_expr, eq_expr) => {
            let (f1, and_expr) = folded_and_expression(f, *and_expr);
            let (f2, eq_expr) = folded_equality_expression(f1, eq_expr);
            f2.on_and_expression_and(and_expr, eq_expr)
        },
        AndExpression::Eq(x) => folded_equality_expression(f, x),
    }
}

/// Folds `&`; one without operator folds as its operand.
pub fn fold_and_expression<F: CSTFolder>(f: &mut F, node: AndExpression) -> (r: F::Result)
    ensures
        F::obeys_fold_spec() ==> (*final(f), r) == folded_and_expression(*old(f), node),
    decreases node,
{
    match node {
        AndExpression::And(and_expr, eq_expr) => {
            let and_expr = fold_and_expression(f, *and_expr);
            let eq_expr = fold_equality_expression(f, eq_expr);
            f.fold_and_expression_and(and_expr, eq_expr)
        },
        AndExpression::Eq(x) => fold_equality_expression(f, x),
    }
}

/// The folder and the result after folding `node` as `fold_exclusive_or_expression` does.
pub open spec fn folded_exclusive_or_expression<F: CSTFolder>(f: F, node: ExclusiveOrExpression) -> (F, F::Result)
    decreases node,
{
    match node {
        ExclusiveOrExpression::Xor(exclusive_or_expr, and_expr) => {
            let (f1, exclusive_or_expr) = folded_exclusive_or_expression(f, *exclusive_or_expr);
            let (f2, and_expr) = folded_and_expression(f1, and_expr);
            f2.on_exclusive_or_expression_xor(exclusive_or_expr, and_expr)
        },
        ExclusiveOrExpression::And(x) => folded_and_expression(f, x),
    }
}

/// Folds `^`; one without operator folds as its operand.
pub fn fold_exclusive_or_expression<F: CSTFolder>(f: &mut F, node: ExclusiveOrExpression) -> (r: F::Result)
    ensures
        F::obeys_fold_spec() ==> (*final(f), r) == folded_exclusive_or_expression(*old(f), node),
    decreases node,
{
    match node {
        ExclusiveOrExpression::Xor(exclusive_or_expr, and_expr) => {
            let exclusive_or_expr = fold_exclusive_or_expression(f, *exclusive_or_expr);
            let and_expr = fold_and_expression(f, and_expr);
            f.fold_exclusive_or_expression_xor(exclusive_or_expr, and_expr)
        },
        ExclusiveOrExpression::And(x) => fold_and_expression(f, x),
    }
}

/// The folder and the result after folding `node` as `fold_inclusive_or_expression` does.
pub open spec fn folded_inclusive_or_expression<F: CSTFolder>(f: F, node: InclusiveOrExpression) -> (F, F::Result)
    decreases node,
{
    match node {
        InclusiveOrExpression::Or(inclusive_or_expr, exclusive_or_expr) => {
            let (f1, inclusive_or_expr) = folded_inclusive_or_expression(f, *inclusive_or_expr);
            let (f2, exclusive_or_expr) = folded_exclusive_or_expression(f1, exclusive_or_expr);
            f2.on_inclusive_or_expression_or(inclusive_or_expr, exclusive_or_expr)
        },
        InclusiveOrExpression::Xor(x) => folded_exclusive_or_expression(f, x),
    }
}

/// Folds `|`; one without operator folds as its operand.
pub fn fold_inclusive_or_expression<F: CSTFolder>(f: &mut F, node: InclusiveOrExpression) -> (r: F::Result)
    ensures
        F::obeys_fold_spec() ==> (*final(f), r) == folded_inclusive_or_expression(*old(f), node),
    decreases node,
{
    match node {
        InclusiveOrExpression::Or(inclusive_or_expr, exclusive_or_expr) => {
            let inclusive_or_expr = fold_inclusive_or_expression(f, *inclusive_or_expr);
            let exclusive_or_expr = fold_exclusive_or_expression(f, exclusive_or_expr);
            f.fold_inclusive_or_expression_or(inclusive_or_expr, exclusive_or_expr)
        },
        InclusiveOrExpression::Xor(x) => fold_exclusive_or_expression(f, x),
    }
}

/// The folder and the result after folding `node` as `fold_logical_and_expression` does.
pub open spec fn folded_logical_and_expression<F: CSTFolder>(f: F, node: LogicalAndExpression) -> (F, F::Result)
    decreases node,
{
    match node {
        LogicalAndExpression::And(logical_and_expr, inclusive_or_expr) => {
            let (f1, logical_and_expr) = folded_logical_and_expression(f, *logical_and_expr);
            let (f2, inclusive_or_expr) = folded_inclusive_or_expression(f1, inclusive_or_expr);
            f2.on_logical_and_expression_and(logical_and_expr, inclusive_or_expr)
        },
        LogicalAndExpression::Or(x) => folded_inclusive_or_expression(f, x),
    }
}

/// Folds `&&`; one without operator folds as its operand.
pub fn fold_logical_and_expression<F: CSTFolder>(f: &mut F, node: LogicalAndExpression) -> (r: F::Result)
    ensures
        F::obeys_fold_spec() ==> (*final(f), r) == folded_logical_and_expression(*old(f), node),
    decreases node,
{
    match node {
        LogicalAndExpression::And(logical_and_expr, inclusive_or_expr) => {
            let logical_and_expr = fold_logical_and_expression(f, *logical_and_expr);
            let inclusive_or_expr = fold_inclusive_or_expression(f, inclusive_or_expr);
            f.fold_logical_and_expression_and(logical_and_expr, inclusive_or_expr)
        },
        LogicalAndExpression::Or(x) => fold_inclusive_or_expression(f, x),
    }
}

/// The folder and the result after folding `node` as `fold_logical_or_expression` does.
pub open spec fn folded_logical_or_expression<F: CSTFolder>(f: F, node: LogicalOrExpression) -> (F, F::Result)
    decreases node,
{
    match node {
        LogicalOrExpression::Or(logical_or_expr, logical_and_expr) => {
            let (f1, logical_or_expr) = folded_logical_or_expression(f, *logical_or_expr);
            let (f2, logical_and_expr) = folded_logical_and_expression(f1, logical_and_expr);
            f2.on_logical_or_expression_or(logical_or_expr, logical_and_expr)
        },
        LogicalOrExpression::And(x) => folded_logical_and_expression(f, x),
    }
}

/// Folds `||`; one without operator folds as its operand.
pub fn fold_logical_or_expression<F: CSTFolder>(f: &mut F, node: LogicalOrExpression) -> (r: F::Result)
    ensures
        F::obeys_fold_spec() ==> (*final(f), r) == folded_logical_or_expression(*old(f), node),
    decreases node,
{
    match node {
        LogicalOrExpression::Or(logical_or_expr, logical_and_expr) => {
            let logical_or_expr = fold_logical_or_expression(f, *logical_or_expr);
            let logical_and_expr = fold_logical_and_expression(f, logical_and_expr);
            f.fold_logical_or_expression_or(logical_or_expr, logical_and_expr)
        },
        LogicalOrExpression::And(x) => fold_logical_and_expression(f, x),
    }
}

/// The folder and the result after folding `node` as `fold_conditional_expression` does.
pub open spec fn folded_conditional_expression<F: CSTFolder>(f: F, node: ConditionalExpression) -> (F, F::Result)
    decreases node,
{
    match node {
        ConditionalExpression::Cond { cond, then_expr, else_expr } => {
            let (f1, cond_expr) = folded_logical_or_expression(f, cond);
            let (f2, then_expr) = folded_expression(f1, *then_expr);
            let (f3, else_expr) = folded_conditional_expression(f2, *else_expr);
            f3.on_conditional_expression_cond(cond_expr, then_expr, else_expr)
        },
        ConditionalExpression::Or(x) => folded_logical_or_expression(f, x),
    }
}

/// Folds `? :`.
pub fn fold_conditional_expression<F: CSTFolder>(f: &mut F, node: ConditionalExpression) -> (r: F::Result)
    ensures
        F::obeys_fold_spec() ==> (*final(f), r) == folded_conditional_expression(*old(f), node),
    decreases node,
{
    match node {
        ConditionalExpression::Cond { cond, then_expr, else_expr } => {
            let cond_expr = fold_logical_or_expression(f, cond);
            let then_expr = fold_expression(f, *then_expr);
            let else_expr = fold_conditional_expression(f, *else_expr);
            f.fold_conditional_expression_cond(cond_expr, then_expr, else_expr)
        },
        ConditionalExpression::Or(x) => fold_logical_or_expression(f, x),
    }
}

/// The folder and the result after folding `node` as `fold_assignment_expression` does.
pub open spec fn folded_assignment_expression<F: CSTFolder>(f: F, node: AssignmentExpression) -> (F, F::Result)
    decreases node,
{
    match node {
        AssignmentExpression::Conditional(x) => folded_conditional_expression(f, x),
        AssignmentExpression::Assign { lhs, op, rhs } => {
            let (f1, lhs_expr) = folded_unary_expression(f, lhs);
            let (f2, op) = f1.on_assignment_operator(op);
            let (f3, rhs) = folded_assignment_expression(f2, *rhs);
            f3.on_assignment_expression_assign(lhs_expr, op, rhs)
        },
    }
}

/// Folds an assignment expression.
pub fn fold_assignment_expression<F: CSTFolder>(f: &mut F, node: AssignmentExpression) -> (r: F::Result)
    ensures
        F::obeys_fold_spec() ==> (*final(f), r) == folded_assignment_expression(*old(f), node),
    decreases node,
{
    match node {
        AssignmentExpression::Conditional(x) => fold_conditional_expression(f, x),
        AssignmentExpression::Assign { lhs, op, rhs } => {
            let lhs_expr = fold_unary_expression(f, lhs);
            let op = f.fold_assignment_operator(op);
            let rhs = fold_assignment_expression(f, *rhs);
            f.fold_assignment_expression_assign(lhs_expr, op, rhs)
        },
    }
}

/// The folder and the result after folding `node` as `fold_expression` does.
pub open spec fn folded_expression<F: CSTFolder>(f: F, node: Expression) -> (F, F::Result)
    decreases node,
{
    match node {
        Expression::Single(x) => folded_assignment_expression(f, x),
        Expression::Comma(expr, assign_expr) => {
            let (f1, expr) = folded_expression(f, *expr);
            let (f2, assign_expr) = folded_assignment_expression(f1, assign_expr);
            f2.on_expression_node(expr, assign_expr)
        },
    }
}

/// Folds an expression.
pub fn fold_expression<F: CSTFolder>(f: &mut F, node: Expression) -> (r: F::Result)
    ensures
        F::obeys_fold_spec() ==> (*final(f), r) == folded_expression(*old(f), node),
    decreases node,
{
    match node {
        Expression::Single(x) => fold_assignment_expression(f, x),
        Expression::Comma(expr, assign_expr) => {
            let expr = fold_expression(f, *expr);
            let assign_expr = fold_assignment_expression(f, assign_expr);
            f.fold_expression_node(expr, assign_expr)
        },
    }
}

/// The folder and the result after folding `node` as `fold_constant_expression` does.
pub open spec fn folded_constant_expression<F: CSTFolder>(f: F, node: ConstantExpression) -> (F, F::Result)
    decreases node,
{
    folded_conditional_expression(f, node.0)
}

/// Folds a constant expression as its conditional expression.
pub fn fold_constant_expression<F: CSTFolder>(f: &mut F, node: ConstantExpression) -> (r: F::Result)
    ensures
        F::obeys_fold_spec() ==> (*final(f), r) == folded_constant_expression(*old(f), node),
    decreases node,
{
    fold_conditional_expression(f, node.0)
}

/// The folder and the result after folding `node` as `fold_type_name` does.
pub open spec fn folded_type_name<F: CSTFolder>(f: F, node: TypeName) -> (F, F::Result)
    decreases node,
{
    let (f1, specifiers) = folded_specifier_qualifier_list(f, node.specifiers);
    let (f2, abs_declarator) = match node.abstract_declarator {
        Some(x) => {
            let (g, y) = folded_abstract_declarator(f1, x);
            (g, Some(y))
        },
        None => (f1, None),
    };
    f2.on_type_name_node(specifiers, abs_declarator)
}

/// Folds a type name.
pub fn fold_type_name<F: CSTFolder>(f: &mut F, node: TypeName) -> (r: F::Result)
    ensures
        F::obeys_fold_spec() ==> (*final(f), r) == folded_type_name(*old(f), node),
    decreases node,
{
    let specifiers = fold_specifier_qualifier_list(f, node.specifiers);
    let abs_declarator = match node.abstract_declarator {
        Some(x) => Some(fold_abstract_declarator(f, x)),
        None => None,
    };
    f.fold_type_name_node(specifiers, abs_declarator)
}

/// The folder and the result after folding `node` as `fold_initializer` does.
pub open spec fn folded_initializer<F: CSTFolder>(f: F, node: Initializer) -> (F, F::Result)
    decreases node,
{
    match node {
        Initializer::Assignment(x) => folded_assignment_expression(f, x),
        Initializer::List(x) => folded_initializer_list(f, x),
    }
}

/// Folds an initializer.
pub fn fold_initializer<F: CSTFolder>(f: &mut F, node: Initializer) -> (r: F::Result)
    ensures
        F::obeys_fold_spec() ==> (*final(f), r) == folded_initializer(*old(f), node),
    decreases node,
{
    match node {
        Initializer::Assignment(x) => fold_assignment_expression(f, x),
        Initializer::List(x) => fold_initializer_list(f, x),
    }
}

/// The folder and the result after folding `node` as `fold_initializer_list` does.
pub open spec fn folded_initializer_list<F: CSTFolder>(f: F, node: InitializerList) -> (F, F::Result)
    decreases node,
{
    let (f1, node) = folded_initializer_seq(f, node.0@);
    f1.on_initializer_list_node(node)
}

/// Folds a braced initializer list.
pub fn fold_initializer_list<F: CSTFolder>(f: &mut F, node: InitializerList) -> (r: F::Result)
    ensures
        F::obeys_fold_spec() ==> (*final(f), r) == folded_initializer_list(*old(f), node),
    decreases node,
{
    let node = fold_initializer_vec(f, node.0);
    f.fold_initializer_list_node(node)
}

/// The folder and the result after folding `node` as `fold_abstract_declarator` does.
pub open spec fn folded_abstract_declarator<F: CSTFolder>(f: F, node: AbstractDeclarator) -> (F, F::Result)
    decreases node,
{
    match node {
        AbstractDeclarator::Pointer(x) => folded_pointer(f, x),
        AbstractDeclarator::Direct { pointer, direct } => {
            let (f1, pointer) = match pointer {
                Some(x) => {
                    let (g, y) = folded_pointer(f, x);
                    (g, Some(y))
                },
                None => (f, None),
            };
            let (f2, direct) = folded_direct_abstract_declarator(f1, direct);
            f2.on_abstract_declarator_direct(pointer, direct)
        },
    }
}

/// Folds an abstract declarator; a pointer alone folds as the pointer.
pub fn fold_abstract_declarator<F: CSTFolder>(f: &mut F, node: AbstractDeclarator) -> (r: F::Result)
    ensures
        F::obeys_fold_spec() ==> (*final(f), r) == folded_abstract_declarator(*old(f), node),
    decreases node,
{
    match node {
        AbstractDeclarator::Pointer(x) => fold_pointer(f, x),
        AbstractDeclarator::Direct { pointer, direct } => {
            let pointer = match pointer {
                Some(x) => Some(fold_pointer(f, x)),
                None => None,
            };
            let direct = fold_direct_abstract_declarator(f, direct);
            f.fold_abstract_declarator_direct(pointer, direct)
        },
    }
}

/// The folder and the result after folding `node` as `fold_direct_abstract_declarator` does.
pub open spec fn folded_direct_abstract_declarator<F: CSTFolder>(f: F, node: DirectAbstractDeclarator) -> (F, F::Result)
    decreases node,
{
    match node {
        DirectAbstractDeclarator::Paren(x) => folded_abstract_declarator(f, *x),
        DirectAbstractDeclarator::Array(constexpr) => {
            let (f1, constexpr) = match constexpr {
                Some(x) => {
                    let (g, y) = folded_constant_expression(f, x);
                    (g, Some(y))
                },
                None => (f, None),
            };
            f1.on_direct_abstract_declarator_array(constexpr)
        },
        DirectAbstractDeclarator::ArrayNested(direct_abs_declarator, constexpr) => {
            let (f1, direct_abs_declarator) = folded_direct_abstract_declarator(f, *direct_abs_declarator);
            let (f2, constexpr) = match constexpr {
                Some(x) => {
                    let (g, y) = folded_constant_expression(f1, x);
                    (g, Some(y))
                },
                None => (f1, None),
            };
            f2.on_direct_abstract_declarator_array_nested(direct_abs_declarator, constexpr)
        },
        DirectAbstractDeclarator::Func(param_type_list) => {
            let (f1, param_type_list) = match param_type_list {
                Some(x) => {
                    let (g, y) = folded_parameter_type_list(f, x);
                    (g, Some(y))
                },
                None => (f, None),
            };
            f1.on_direct_abstract_declarator_func(param_type_list)
        },
        DirectAbstractDeclarator::FuncNested(direct_abs_declarator, param_type_list) => {
            let (f1, direct_abs_declarator) = folded_direct_abstract_declarator(f, *direct_abs_declarator);
            let (f2, param_type_list) = match param_type_list {
                Some(x) => {
                    let (g, y) = folded_parameter_type_list(f1, x);
                    (g, Some(y))
                },
                None => (f1, None),
            };
            f2.on_direct_abstract_declarator_func_nested(direct_abs_declarator, param_type_list)
        },
    }
}

/// Folds a direct abstract declarator; one in parentheses folds as its
/// inside.
pub fn fold_direct_abstract_declarator<F: CSTFolder>(f: &mut F, node: DirectAbstractDeclarator) -> (r: F::Result)
    ensures
        F::obeys_fold_spec() ==> (*final(f), r) == folded_direct_abstract_declarator(*old(f), node),
    decreases node,
{
    match node {
        DirectAbstractDeclarator::Paren(x) => fold_abstract_declarator(f, *x),
        DirectAbstractDeclarator::Array(constexpr) => {
            let constexpr = match constexpr {
                Some(x) => Some(fold_constant_expression(f, x)),
                None => None,
            };
            f.fold_direct_abstract_declarator_array(constexpr)
        },
        DirectAbstractDeclarator::ArrayNested(direct_abs_declarator, constexpr) => {
            let direct_abs_declarator = fold_direct_abstract_declarator(f, *direct_abs_declarator);
            let constexpr = match constexpr {
                Some(x) => Some(fold_constant_expression(f, x)),
                None => None,
            };
            f.fold_direct_abstract_declarator_array_nested(direct_abs_declarator, constexpr)
        },
        DirectAbstractDeclarator::Func(param_type_list) => {
            let param_type_list = match param_type_list {
                Some(x) => Some(fold_parameter_type_list(f, x)),
                None => None,
            };
            f.fold_direct_abstract_declarator_func(param_type_list)
        },
        DirectAbstractDeclarator::FuncNested(direct_abs_declarator, param_type_list) => {
            let direct_abs_declarator = fold_direct_abstract_declarator(f, *direct_abs_declarator);
            let param_type_list = match param_type_list {
                Some(x) => Some(fold_parameter_type_list(f, x)),
                None => None,
            };
            f.fold_direct_abstract_declarator_func_nested(direct_abs_declarator, param_type_list)
        },
    }
}

/// The folder and the result after folding `node` as `fold_parameter_type_list` does.
pub open spec fn folded_parameter_type_list<F: CSTFolder>(f: F, node: ParameterTypeList) -> (F, F::Result)
    decreases node,
{
    match node {
        ParameterTypeList::Params(param_decl) => {
            let (f1, param_decl) = folded_parameter_declaration_seq(f, param_decl@);
            f1.on_parameter_type_list_node(param_decl)
        },
        ParameterTypeList::Variadic(param_decl) => {
            let (f1, param_decl) = folded_parameter_declaration_seq(f, param_decl@);
            f1.on_parameter_type_list_node(param_decl)
        },
    }
}

/// Folds a prototype's parameters; whether they end in `...` is not handed
/// over.
pub fn fold_parameter_type_list<F: CSTFolder>(f: &mut F, node: ParameterTypeList) -> (r: F::Result)
    ensures
        F::obeys_fold_spec() ==> (*final(f), r) == folded_parameter_type_list(*old(f), node),
    decreases node,
{
    match node {
        ParameterTypeList::Params(param_decl) => {
            let param_decl = fold_parameter_declaration_vec(f, param_decl);
            f.fold_parameter_type_list_node(param_decl)
        },
        ParameterTypeList::Variadic(param_decl) => {
            let param_decl = fold_parameter_declaration_vec(f, param_decl);
            f.fold_parameter_type_list_node(param_decl)
        },
    }
}

/// The folder and the result after folding `node` as `fold_parameter_declaration` does.
pub open spec fn folded_parameter_declaration<F: CSTFolder>(f: F, node: ParameterDeclaration) -> (F, F::Result)
    decreases node,
{
    match node {
        ParameterDeclaration::WithDeclarator { specifiers, declarator } => {
            let (f1, specs) = folded_declaration_specifiers(f, specifiers);
            let (f2, declarator) = folded_declarator(f1, declarator);
            f2.on_parameter_declaration_with_declarator(specs, declarator)
        },
        ParameterDeclaration::Abstract { specifiers, abstract_declarator } => {
            let (f1, specs) = folded_declaration_specifiers(f, specifiers);
            let (f2, abs_decl) = match abstract_declarator {
                Some(x) => {
                    let (g, y) = folded_abstract_declarator(f1, x);
                    (g, Some(y))
                },
                None => (f1, None),
            };
            f2.on_parameter_declaration_abstract(specs, abs_decl)
        },
    }
}

/// Folds a parameter declaration.
pub fn fold_parameter_declaration<F: CSTFolder>(f: &mut F, node: ParameterDeclaration) -> (r: F::Result)
    ensures
        F::obeys_fold_spec() ==> (*final(f), r) == folded_parameter_declaration(*old(f), node),
    decreases node,
{
    match node {
        ParameterDeclaration::WithDeclarator { specifiers, declarator } => {
            let specs = fold_declaration_specifiers(f, specifiers);
            let declarator = fold_declarator(f, declarator);
            f.fold_parameter_declaration_with_declarator(specs, declarator)
        },
        ParameterDeclaration::Abstract { specifiers, abstract_declarator } => {
            let specs = fold_declaration_specifiers(f, specifiers);
            let abs_decl = match abstract_declarator {
                Some(x) => Some(fold_abstract_declarator(f, x)),
                None => None,
            };
            f.fold_parameter_declaration_abstract(specs, abs_decl)
        },
    }
}

/// The folder and the result after folding `node` as `fold_specifier_qualifier_list` does.
pub open spec fn folded_specifier_qualifier_list<F: CSTFolder>(f: F, node: SpecifierQualifierList) -> (F, F::Result)
    decreases node,
{
    match node {
        SpecifierQualifierList::TypeSpecifier(type_spec, spec_qual_list) => {
            let (f1, type_spec) = f.on_type_specifier(type_spec);
            let (f2, spec_qual_list) = match spec_qual_list {
                Some(x) => {
                    let (g, y) = folded_specifier_qualifier_list(f1, *x);
                    (g, Some(y))
                },
                None => (f1, None),
            };
            f2.on_specifier_qualifier_list_type_spec(type_spec, spec_qual_list)
        },
        SpecifierQualifierList::TypeQualifier(type_qual, spec_qual_list) => {
            let (f1, type_qual) = f.on_type_qualifier(type_qual);
            let (f2, spec_qual_list) = match spec_qual_list {
                Some(x) => {
                    let (g, y) = folded_specifier_qualifier_list(f1, *x);
                    (g, Some(y))
                },
                None => (f1, None),
            };
            f2.on_specifier_qualifier_list_type_qual(type_qual, spec_qual_list)
        },
    }
}

/// Folds type specifiers and qualifiers, the first one before the rest.
pub fn fold_specifier_qualifier_list<F: CSTFolder>(f: &mut F, node: SpecifierQualifierList) -> (r: F::Result)
    ensures
        F::obeys_fold_spec() ==> (*final(f), r) == folded_specifier_qualifier_list(*old(f), node),
    decreases node,
{
    match node {
        SpecifierQualifierList::TypeSpecifier(type_spec, spec_qual_list) => {
            let type_spec = f.fold_type_specifier(type_spec);
            let spec_qual_list = match spec_qual_list {
                Some(x) => Some(fold_specifier_qualifier_list(f, *x)),
                None => None,
            };
            f.fold_specifier_qualifier_list_type_spec(type_spec, spec_qual_list)
        },
        SpecifierQualifierList::TypeQualifier(type_qual, spec_qual_list) => {
            let type_qual = f.fold_type_qualifier(type_qual);
            let spec_qual_list = match spec_qual_list {
                Some(x) => Some(fold_specifier_qualifier_list(f, *x)),
                None => None,
            };
            f.fold_specifier_qualifier_list_type_qual(type_qual, spec_qual_list)
        },
    }
}

/// The folder and the results after folding the items of `s` in order.
pub open spec fn folded_declaration_seq<F: CSTFolder>(f: F, s: Seq<Declaration>) -> (F, Seq<F::Result>)
    decreases s,
{
    if s.len() == 0 {
        (f, Seq::empty())
    } else {
        let (f1, rs) = folded_declaration_seq(f, s.subrange(0, s.len() - 1));
        let (f2, x) = folded_declaration(f1, s[s.len() - 1]);
        (f2, rs.push(x))
    }
}

/// Folds the declarations in order.
fn fold_declaration_vec<F: CSTFolder>(f: &mut F, items: Vec<Declaration>) -> (r: Vec<F::Result>)
    ensures
        r.len() == items.len(),
        F::obeys_fold_spec() ==> (*final(f), r@) == folded_declaration_seq(*old(f), items@),
    decreases items,
{
    let ghost all = items@;
    let ghost f0 = *f;
    let mut rest = items;
    let mut out: Vec<F::Result> = Vec::new();
    while rest.len() > 0
        invariant
            out.len() + rest.len() == all.len(),
            rest@ == all.subrange(out.len() as int, all.len() as int),
            all == items@,
            f0 == *old(f),
            F::obeys_fold_spec() ==> (*f, out@) == folded_declaration_seq(f0, all.take(out.len() as int)),
        decreases rest.len(),
    {
        let ghost k = out.len() as int;
        let x = rest.remove(0);
        proof {
            assert(x == all[k]);
            assert(rest@ =~= all.subrange(k + 1, all.len() as int));
            assert(decreases_to!(items => items@));
            assert(decreases_to!(items@ => items@[k]));
        }
        out.push(fold_declaration(f, x));
        proof {
            assert(all.take(k + 1).subrange(0, k) =~= all.take(k));
        }
    }
    proof {
        assert(all.take(all.len() as int) =~= all);
    }
    out
}

/// The folder and the results after folding the items of `s` in order.
pub open spec fn folded_init_declarator_seq<F: CSTFolder>(f: F, s: Seq<InitDeclarator>) -> (F, Seq<F::Result>)
    decreases s,
{
    if s.len() == 0 {
        (f, Seq::empty())
    } else {
        let (f1, rs) = folded_init_declarator_seq(f, s.subrange(0, s.len() - 1));
        let (f2, x) = folded_init_declarator(f1, s[s.len() - 1]);
        (f2, rs.push(x))
    }
}

/// Folds the declarators with their initializers in order.
fn fold_init_declarator_vec<F: CSTFolder>(f: &mut F, items: Vec<InitDeclarator>) -> (r: Vec<F::Result>)
    ensures
        r.len() == items.len(),
        F::obeys_fold_spec() ==> (*final(f), r@) == folded_init_declarator_seq(*old(f), items@),
    decreases items,
{
    let ghost all = items@;
    let ghost f0 = *f;
    let mut rest = items;
    let mut out: Vec<F::Result> = Vec::new();
    while rest.len() > 0
        invariant
            out.len() + rest.len() == all.len(),
            rest@ == all.subrange(out.len() as int, all.len() as int),
            all == items@,
            f0 == *old(f),
            F::obeys_fold_spec() ==> (*f, out@) == folded_init_declarator_seq(f0, all.take(out.len() as int)),
        decreases rest.len(),
    {
        let ghost k = out.len() as int;
        let x = rest.remove(0);
        proof {
            assert(x == all[k]);
            assert(rest@ =~= all.subrange(k + 1, all.len() as int));
            assert(decreases_to!(items => items@));
            assert(decreases_to!(items@ => items@[k]));
        }
        out.push(fold_init_declarator(f, x));
        proof {
            assert(all.take(k + 1).subrange(0, k) =~= all.take(k));
        }
    }
    proof {
        assert(all.take(all.len() as int) =~= all);
    }
    out
}

/// The folder and the results after folding the items of `s` in order.
pub open spec fn folded_struct_declaration_seq<F: CSTFolder>(f: F, s: Seq<StructDeclaration>) -> (F, Seq<F::Result>)
    decreases s,
{
    if s.len() == 0 {
        (f, Seq::empty())
    } else {
        let (f1, rs) = folded_struct_declaration_seq(f, s.subrange(0, s.len() - 1));
        let (f2, x) = folded_struct_declaration(f1, s[s.len() - 1]);
        (f2, rs.push(x))
    }
}

/// Folds the member declarations in order.
fn fold_struct_declaration_vec<F: CSTFolder>(f: &mut F, items: Vec<StructDeclaration>) -> (r: Vec<F::Result>)
    ensures
        r.len() == items.len(),
        F::obeys_fold_spec() ==> (*final(f), r@) == folded_struct_declaration_seq(*old(f), items@),
    decreases items,
{
    let ghost all = items@;
    let ghost f0 = *f;
    let mut rest = items;
    let mut out: Vec<F::Result> = Vec::new();
    while rest.len() > 0
        invariant
            out.len() + rest.len() == all.len(),
            rest@ == all.subrange(out.len() as int, all.len() as int),
            all == items@,
            f0 == *old(f),
            F::obeys_fold_spec() ==> (*f, out@) == folded_struct_declaration_seq(f0, all.take(out.len() as int)),
        decreases rest.len(),
    {
        let ghost k = out.len() as int;
        let x = rest.remove(0);
        proof {
            assert(x == all[k]);
            assert(rest@ =~= all.subrange(k + 1, all.len() as int));
            assert(decreases_to!(items => items@));
            assert(decreases_to!(items@ => items@[k]));
        }
        out.push(fold_struct_declaration(f, x));
        proof {
            assert(all.take(k + 1).subrange(0, k) =~= all.take(k));
        }
    }
    proof {
        assert(all.take(all.len() as int) =~= all);
    }
    out
}

/// The folder and the results after folding the items of `s` in order.
pub open spec fn folded_struct_declarator_seq<F: CSTFolder>(f: F, s: Seq<StructDeclarator>) -> (F, Seq<F::Result>)
    decreases s,
{
    if s.len() == 0 {
        (f, Seq::empty())
    } else {
        let (f1, rs) = folded_struct_declarator_seq(f, s.subrange(0, s.len() - 1));
        let (f2, x) = folded_struct_declarator(f1, s[s.len() - 1]);
        (f2, rs.push(x))
    }
}

/// Folds the member declarators in order.
fn fold_struct_declarator_vec<F: CSTFolder>(f: &mut F, items: Vec<StructDeclarator>) -> (r: Vec<F::Result>)
    ensures
        r.len() == items.len(),
        F::obeys_fold_spec() ==> (*final(f), r@) == folded_struct_declarator_seq(*old(f), items@),
    decreases items,
{
    let ghost all = items@;
    let ghost f0 = *f;
    let mut rest = items;
    let mut out: Vec<F::Result> = Vec::new();
    while rest.len() > 0
        invariant
            out.len() + rest.len() == all.len(),
            rest@ == all.subrange(out.len() as int, all.len() as int),
            all == items@,
            f0 == *old(f),
            F::obeys_fold_spec() ==> (*f, out@) == folded_struct_declarator_seq(f0, all.take(out.len() as int)),
        decreases rest.len(),
    {
        let ghost k = out.len() as int;
        let x = rest.remove(0);
        proof {
            assert(x == all[k]);
            assert(rest@ =~= all.subrange(k + 1, all.len() as int));
            assert(decreases_to!(items => items@));
            assert(decreases_to!(items@ => items@[k]));
        }
        out.push(fold_struct_declarator(f, x));
        proof {
            assert(all.take(k + 1).subrange(0, k) =~= all.take(k));
        }
    }
    proof {
        assert(all.take(all.len() as int) =~= all);
    }
    out
}

/// The folder and the results after folding the items of `s` in order.
pub open spec fn folded_enumerator_seq<F: CSTFolder>(f: F, s: Seq<Enumerator>) -> (F, Seq<F::Result>)
    decreases s,
{
    if s.len() == 0 {
        (f, Seq::empty())
    } else {
        let (f1, rs) = folded_enumerator_seq(f, s.subrange(0, s.len() - 1));
        let (f2, x) = folded_enumerator(f1, s[s.len() - 1]);
        (f2, rs.push(x))
    }
}

/// Folds the enumerators in order.
fn fold_enumerator_vec<F: CSTFolder>(f: &mut F, items: Vec<Enumerator>) -> (r: Vec<F::Result>)
    ensures
        r.len() == items.len(),
        F::obeys_fold_spec() ==> (*final(f), r@) == folded_enumerator_seq(*old(f), items@),
    decreases items,
{
    let ghost all = items@;
    let ghost f0 = *f;
    let mut rest = items;
    let mut out: Vec<F::Result> = Vec::new();
    while rest.len() > 0
        invariant
            out.len() + rest.len() == all.len(),
            rest@ == all.subrange(out.len() as int, all.len() as int),
            all == items@,
            f0 == *old(f),
            F::obeys_fold_spec() ==> (*f, out@) == folded_enumerator_seq(f0, all.take(out.len() as int)),
        decreases rest.len(),
    {
        let ghost k = out.len() as int;
        let x = rest.remove(0);
        proof {
            assert(x == all[k]);
            assert(rest@ =~= all.subrange(k + 1, all.len() as int));
            assert(decreases_to!(items => items@));
            assert(decreases_to!(items@ => items@[k]));
        }
        out.push(fold_enumerator(f, x));
        proof {
            assert(all.take(k + 1).subrange(0, k) =~= all.take(k));
        }
    }
    proof {
        assert(all.take(all.len() as int) =~= all);
    }
    out
}

/// The folder and the results after folding the items of `s` in order.
pub open spec fn folded_type_qualifier_seq<F: CSTFolder>(f: F, s: Seq<TypeQualifier>) -> (F, Seq<F::Result>)
    decreases s,
{
    if s.len() == 0 {
        (f, Seq::empty())
    } else {
        let (f1, rs) = folded_type_qualifier_seq(f, s.subrange(0, s.len() - 1));
        let (f2, x) = f1.on_type_qualifier(s[s.len() - 1]);
        (f2, rs.push(x))
    }
}

/// Folds the type qualifiers in order.
fn fold_type_qualifier_vec<F: CSTFolder>(f: &mut F, items: Vec<TypeQualifier>) -> (r: Vec<F::Result>)
    ensures
        r.len() == items.len(),
        F::obeys_fold_spec() ==> (*final(f), r@) == folded_type_qualifier_seq(*old(f), items@),
    decreases items,
{
    let ghost all = items@;
    let ghost f0 = *f;
    let mut rest = items;
    let mut out: Vec<F::Result> = Vec::new();
    while rest.len() > 0
        invariant
            out.len() + rest.len() == all.len(),
            rest@ == all.subrange(out.len() as int, all.len() as int),
            all == items@,
            f0 == *old(f),
            F::obeys_fold_spec() ==> (*f, out@) == folded_type_qualifier_seq(f0, all.take(out.len() as int)),
        decreases rest.len(),
    {
        let ghost k = out.len() as int;
        let x = rest.remove(0);
        proof {
            assert(x == all[k]);
            assert(rest@ =~= all.subrange(k + 1, all.len() as int));
        }
        out.push(f.fold_type_qualifier(x));
        proof {
            assert(all.take(k + 1).subrange(0, k) =~= all.take(k));
        }
    }
    proof {
        assert(all.take(all.len() as int) =~= all);
    }
    out
}

/// The folder and the results after folding the items of `s` in order.
pub open spec fn folded_block_item_seq<F: CSTFolder>(f: F, s: Seq<BlockItem>) -> (F, Seq<F::Result>)
    decreases s,
{
    if s.len() == 0 {
        (f, Seq::empty())
    } else {
        let (f1, rs) = folded_block_item_seq(f, s.subrange(0, s.len() - 1));
        let (f2, x) = folded_block_item(f1, s[s.len() - 1]);
        (f2, rs.push(x))
    }
}

/// Folds the block items in order.
fn fold_block_item_vec<F: CSTFolder>(f: &mut F, items: Vec<BlockItem>) -> (r: Vec<F::Result>)
    ensures
        r.len() == items.len(),
        F::obeys_fold_spec() ==> (*final(f), r@) == folded_block_item_seq(*old(f), items@),
    decreases items,
{
    let ghost all = items@;
    let ghost f0 = *f;
    let mut rest = items;
    let mut out: Vec<F::Result> = Vec::new();
    while rest.len() > 0
        invariant
            out.len() + rest.len() == all.len(),
            rest@ == all.subrange(out.len() as int, all.len() as int),
            all == items@,
            f0 == *old(f),
            F::obeys_fold_spec() ==> (*f, out@) == folded_block_item_seq(f0, all.take(out.len() as int)),
        decreases rest.len(),
    {
        let ghost k = out.len() as int;
        let x = rest.remove(0);
        proof {
            assert(x == all[k]);
            assert(rest@ =~= all.subrange(k + 1, all.len() as int));
            assert(decreases_to!(items => items@));
            assert(decreases_to!(items@ => items@[k]));
        }
        out.push(fold_block_item(f, x));
        proof {
            assert(all.take(k + 1).subrange(0, k) =~= all.take(k));
        }
    }
    proof {
        assert(all.take(all.len() as int) =~= all);
    }
    out
}

/// The folder and the results after folding the items of `s` in order.
pub open spec fn folded_initializer_seq<F: CSTFolder>(f: F, s: Seq<Initializer>) -> (F, Seq<F::Result>)
    decreases s,
{
    if s.len() == 0 {
        (f, Seq::empty())
    } else {
        let (f1, rs) = folded_initializer_seq(f, s.subrange(0, s.len() - 1));
        let (f2, x) = folded_initializer(f1, s[s.len() - 1]);
        (f2, rs.push(x))
    }
}

/// Folds the initializers in order.
fn fold_initializer_vec<F: CSTFolder>(f: &mut F, items: Vec<Initializer>) -> (r: Vec<F::Result>)
    ensures
        r.len() == items.len(),
        F::obeys_fold_spec() ==> (*final(f), r@) == folded_initializer_seq(*old(f), items@),
    decreases items,
{
    let ghost all = items@;
    let ghost f0 = *f;
    let mut rest = items;
    let mut out: Vec<F::Result> = Vec::new();
    while rest.len() > 0
        invariant
            out.len() + rest.len() == all.len(),
            rest@ == all.subrange(out.len() as int, all.len() as int),
            all == items@,
            f0 == *old(f),
            F::obeys_fold_spec() ==> (*f, out@) == folded_initializer_seq(f0, all.take(out.len() as int)),
        decreases rest.len(),
    {
        let ghost k = out.len() as int;
        let x = rest.remove(0);
        proof {
            assert(x == all[k]);
            assert(rest@ =~= all.subrange(k + 1, all.len() as int));
            assert(decreases_to!(items => items@));
            assert(decreases_to!(items@ => items@[k]));
        }
        out.push(fold_initializer(f, x));
        proof {
            assert(all.take(k + 1).subrange(0, k) =~= all.take(k));
        }
    }
    proof {
        assert(all.take(all.len() as int) =~= all);
    }
    out
}

/// The folder and the results after folding the items of `s` in order.
pub open spec fn folded_parameter_declaration_seq<F: CSTFolder>(f: F, s: Seq<ParameterDeclaration>) -> (F, Seq<F::Result>)
    decreases s,
{
    if s.len() == 0 {
        (f, Seq::empty())
    } else {
        let (f1, rs) = folded_parameter_declaration_seq(f, s.subrange(0, s.len() - 1));
        let (f2, x) = folded_parameter_declaration(f1, s[s.len() - 1]);
        (f2, rs.push(x))
    }
}

/// Folds the parameter declarations in order.
fn fold_parameter_declaration_vec<F: CSTFolder>(f: &mut F, items: Vec<ParameterDeclaration>) -> (r: Vec<F::Result>)
    ensures
        r.len() == items.len(),
        F::obeys_fold_spec() ==> (*final(f), r@) == folded_parameter_declaration_seq(*old(f), items@),
    decreases items,
{
    let ghost all = items@;
    let ghost f0 = *f;
    let mut rest = items;
    let mut out: Vec<F::Result> = Vec::new();
    while rest.len() > 0
        invariant
            out.len() + rest.len() == all.len(),
            rest@ == all.subrange(out.len() as int, all.len() as int),
            all == items@,
            f0 == *old(f),
            F::obeys_fold_spec() ==> (*f, out@) == folded_parameter_declaration_seq(f0, all.take(out.len() as int)),
        decreases rest.len(),
    {
        let ghost k = out.len() as int;
        let x = rest.remove(0);
        proof {
            assert(x == all[k]);
            assert(rest@ =~= all.subrange(k + 1, all.len() as int));
            assert(decreases_to!(items => items@));
            assert(decreases_to!(items@ => items@[k]));
        }
        out.push(fold_parameter_declaration(f, x));
        proof {
            assert(all.take(k + 1).subrange(0, k) =~= all.take(k));
        }
    }
    proof {
        assert(all.take(all.len() as int) =~= all);
    }
    out
}

} // verus!
