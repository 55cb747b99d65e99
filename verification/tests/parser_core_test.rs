use ccfront::parser::parser_core::{ParseStep, ParseTables, Parser};
use ccfront::parser::parser_yy::LRAction::{Accept, Error, Reduce, Shift};
use ccfront::parser::parser_yy::{CompressedTable, LRAction, INIT_STATE};
use ccfront::types::span::Span;
use ccfront::utils::compress::compress_matrix;

const END: usize = 0;
const A: usize = 1;
const PLUS: usize = 2;

/// Tables of the grammar
///   0: S' -> E      1: E -> E + a      2: E -> a
/// over the tokens END, a, +, with goto columns S' = 0 and E = 1.
fn tables() -> ParseTables {
    let actions: Vec<Vec<LRAction>> = vec![
        vec![Error, Shift(2), Error],
        vec![Accept(0), Error, Shift(3)],
        vec![Reduce(2), Error, Reduce(2)],
        vec![Error, Shift(4), Error],
        vec![Reduce(1), Error, Reduce(1)],
        vec![Error, Error, Error],
    ];
    let gotos: Vec<Vec<Option<usize>>> = vec![
        vec![Some(5), Some(1)],
        vec![None, None],
        vec![None, None],
        vec![None, None],
        vec![None, None],
        vec![None, None],
    ];
    let (base, next, check) = compress_matrix(&actions, Error);
    let action = CompressedTable { row_id: vec![0, 1, 2, 3, 4, 5], base, next, check };
    let (base, next, check) = compress_matrix(&gotos, None);
    let goto = CompressedTable { row_id: vec![0, 1, 2, 3, 4, 5], base, next, check };
    ParseTables {
        action,
        goto,
        expr_lens: vec![1, 3, 1],
        expr_ids: vec![0, 1, 1],
        expr_names: vec!["start", "sum", "atom"],
    }
}

/// Builds a bracketed trace of the reductions.
fn act(expr: usize, values: Vec<String>) -> String {
    format!("{}({})", expr, values.join(" "))
}

fn run(tokens: &[usize]) -> (Parser<String>, Vec<ParseStep>) {
    let tables = tables();
    let mut parser = Parser::new(String::from("$"));
    let mut steps = Vec::new();
    let mut i = 0;
    while i < tokens.len() {
        let token = tokens[i];
        assert!(parser.is_step_defined(&tables, token));
        let step = parser.step(&tables, token, format!("t{}", token), &act);
        steps.push(step);
        match step {
            ParseStep::Shifted(_) => i += 1,
            ParseStep::Reduced(_) => {}
            ParseStep::Accepted(_) | ParseStep::Failed => break,
        }
    }
    (parser, steps)
}

#[test]
fn parser_starts_in_the_start_state() {
    let parser = Parser::new(7u32);
    assert_eq!(parser.state_stack, vec![INIT_STATE]);
    assert_eq!(parser.value_stack, vec![7]);
    assert_eq!(parser.last_reduced, INIT_STATE);
}

#[test]
fn parser_accepts_a_sum() {
    let (parser, steps) = run(&[A, PLUS, A, END]);
    assert_eq!(
        steps,
        vec![
            ParseStep::Shifted(2),
            ParseStep::Reduced(2),
            ParseStep::Shifted(3),
            ParseStep::Shifted(4),
            ParseStep::Reduced(1),
            ParseStep::Accepted(0),
        ]
    );
    assert_eq!(parser.state_stack, vec![0, 5]);
    assert_eq!(parser.last_reduced, 0);
    assert_eq!(parser.finish(), "0(1(2(t1) t2 t1))");
}

#[test]
fn parser_reduce_pops_and_pushes_goto() {
    let tables = tables();
    let mut parser = Parser::new(String::from("$"));
    assert_eq!(parser.action(&tables, A), Shift(2));
    assert_eq!(parser.step(&tables, A, String::from("a"), &act), ParseStep::Shifted(2));
    assert_eq!(parser.state_stack, vec![0, 2]);
    assert_eq!(parser.value_stack, vec!["$", "a"]);
    assert_eq!(parser.step(&tables, END, String::from("end"), &act), ParseStep::Reduced(2));
    assert_eq!(parser.state_stack, vec![0, 1]);
    assert_eq!(parser.value_stack, vec!["$", "2(a)"]);
    assert_eq!(parser.last_reduced, 2);
}

#[test]
fn parser_syntax_error_leaves_the_machine() {
    let tables = tables();
    let mut parser = Parser::new(String::from("$"));
    assert_eq!(parser.step(&tables, A, String::from("a"), &act), ParseStep::Shifted(2));
    assert_eq!(parser.step(&tables, END, String::from("e"), &act), ParseStep::Reduced(2));
    assert_eq!(parser.step(&tables, A, String::from("a"), &act), ParseStep::Failed);
    assert_eq!(parser.state_stack, vec![0, 1]);
    assert_eq!(parser.value_stack, vec!["$", "2(a)"]);
    let err = parser.error(&tables, Span { start: 3, end: 4 });
    assert_eq!(err.span, Span { start: 3, end: 4 });
    assert_eq!(err.msg, "Syntax Error");
    assert_eq!(err.name, "atom");
}

#[test]
fn parser_error_before_any_reduction() {
    let tables = tables();
    let mut parser = Parser::new(0u8);
    assert!(parser.is_step_defined(&tables, END));
    assert_eq!(parser.step(&tables, END, 1, &|_e: usize, _v: Vec<u8>| 0u8), ParseStep::Failed);
    assert_eq!(parser.state_stack, vec![0]);
    assert_eq!(parser.error(&tables, Span { start: 0, end: 1 }).name, "start");
}

#[test]
fn parser_step_undefined_is_reported() {
    let mut tables = tables();
    // A reduction longer than the stack is not defined.
    tables.expr_lens = vec![1, 3, 5];
    let mut parser = Parser::new(String::new());
    assert!(parser.is_step_defined(&tables, A));
    assert_eq!(parser.step(&tables, A, String::from("a"), &act), ParseStep::Shifted(2));
    assert!(!parser.is_step_defined(&tables, END));
    // A token past the table's columns is not defined.
    let parser = Parser::new(String::new());
    assert!(!parser.is_step_defined(&tables, 1000));
}
