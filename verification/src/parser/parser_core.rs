//! The LR parse machine: a stack of states beside a stack of semantic
//! values, moved one token at a time by the compressed parse tables.
//!
//! The tokens arrive from the lexer while the parse runs, so the caller
//! drives the loop: it shows the machine the next token with `step`, and
//! consumes that token only when the answer is `Shifted`.
use crate::err::parser_error::ParserError;
use crate::parser::parser_yy::{get_action, get_goto, CompressedTable, LRAction, INIT_STATE};
use crate::types::span::Span;
use vstd::prelude::*;

verus! {

/// The tables a parse reads.
///
/// - `action`, `goto`: the compressed action and goto tables
/// - `expr_lens`: the number of symbols on the right of each production
/// - `expr_ids`: the goto column of each production's left-hand symbol
/// - `expr_names`: the name of each production, for error messages
pub struct ParseTables {
    pub action: CompressedTable<LRAction>,
    pub goto: CompressedTable<Option<usize>>,
    pub expr_lens: Vec<usize>,
    pub expr_ids: Vec<usize>,
    pub expr_names: Vec<&'static str>,
}

impl ParseTables {
    /// The action of `state` on `token`: the cell of the action table, or
    /// `Error` where the cell is empty.
    pub open spec fn action_of(&self, state: int, token: int) -> LRAction {
        match self.action.cell(state, token) {
            Some(a) => a,
            None => LRAction::Error,
        }
    }

    /// The state `state` goes to after a reduction by production `expr`.
    pub open spec fn goto_of(&self, state: int, expr: int) -> Option<usize> {
        match self.goto.cell(state, self.expr_ids@[expr] as int) {
            Some(x) => x,
            None => None,
        }
    }
}

/// What one step of the machine did with the token it was shown.
#[derive(Debug, Clone, Copy, PartialEq, Eq, Structural)]
pub enum ParseStep {
    /// Reduced by this production; the token is still to come.
    Reduced(usize),
    /// Reduced by this production and accepted the input.
    Accepted(usize),
    /// Consumed the token and went to this state.
    Shifted(usize),
    /// The token is a syntax error here; nothing changed.
    Failed,
}

/// The parse machine.
///
/// - `state_stack`: the states, the start state at the bottom
/// - `value_stack`: one semantic value beside each state
/// - `last_reduced`: the production of the latest reduction
pub struct Parser<V> {
    pub state_stack: Vec<usize>,
    pub value_stack: Vec<V>,
    pub last_reduced: usize,
}

impl<V> Parser<V> {
    /// The two stacks are never empty and always of one height.
    pub open spec fn wf(&self) -> bool {
        &&& self.state_stack.len() >= 1
        &&& self.value_stack.len() == self.state_stack.len()
    }

    /// The state on top of the stack.
    pub open spec fn top(&self) -> usize {
        self.state_stack@.last()
    }

    /// A reduction by `expr` is defined here: the production is in the
    /// tables, its symbols lie above the bottom state, and the state left
    /// uncovered has a goto on its left-hand symbol.
    pub open spec fn can_reduce_by(&self, tables: &ParseTables, expr: int) -> bool {
        let under = self.state_stack.len() - tables.expr_lens@[expr] - 1;
        &&& 0 <= expr < tables.expr_lens.len()
        &&& expr < tables.expr_ids.len()
        &&& tables.expr_lens@[expr] < self.state_stack.len()
        &&& tables.goto.in_range(self.state_stack@[under] as int, tables.expr_ids@[expr] as int)
        &&& tables.goto_of(self.state_stack@[under] as int, expr) is Some
    }

    /// A step on `token` is defined here: the tables can be read at the top
    /// state, and a reduction the action asks for is defined.
    pub open spec fn can_step(&self, tables: &ParseTables, token: int) -> bool {
        &&& tables.action.wf()
        &&& tables.goto.wf()
        &&& tables.action.in_range(self.top() as int, token)
        &&& match tables.action_of(self.top() as int, token) {
            LRAction::Reduce(e) => self.can_reduce_by(tables, e as int),
            LRAction::Accept(e) => self.can_reduce_by(tables, e as int),
            _ => true,
        }
    }

    /// `self` is `before` reduced by `expr`: the production's symbols are
    /// popped from both stacks, the goto of the uncovered state is pushed,
    /// and beside it the value that `act` made of `expr` and the popped
    /// values.
    pub open spec fn reduced_from<F: Fn(usize, Vec<V>) -> V>(
        &self,
        before: &Parser<V>,
        tables: &ParseTables,
        expr: usize,
        act: &F,
    ) -> bool {
        let pop = before.state_stack.len() - tables.expr_lens@[expr as int];
        let under = before.state_stack@[pop - 1];
        &&& self.state_stack@ == before.state_stack@.subrange(0, pop).push(
            tables.goto_of(under as int, expr as int)->0,
        )
        &&& self.value_stack@.len() == pop + 1
        &&& self.value_stack@.subrange(0, pop) == before.value_stack@.subrange(0, pop)
        &&& exists|popped: Vec<V>|
            #![trigger call_ensures(*act, (expr, popped), self.value_stack@[pop])]
            popped@ == before.value_stack@.subrange(pop, before.value_stack.len() as int)
                && call_ensures(*act, (expr, popped), self.value_stack@[pop])
        &&& self.last_reduced == expr
    }

    /// A machine in the start state, with `bottom` as the value beside it.
    pub fn new(bottom: V) -> (r: Self)
        ensures
            r.wf(),
            r.state_stack@ == seq![INIT_STATE],
            r.value_stack@ == seq![bottom],
            r.last_reduced == INIT_STATE,
    {
        let mut state_stack: Vec<usize> = Vec::new();
        state_stack.push(INIT_STATE);
        let mut value_stack: Vec<V> = Vec::new();
        value_stack.push(bottom);
        Parser { state_stack, value_stack, last_reduced: INIT_STATE }
    }

    /// The action of the top state on `token`.
    pub fn action(&self, tables: &ParseTables, token: usize) -> (r: LRAction)
        requires
            self.wf(),
            tables.action.wf(),
            tables.action.in_range(self.top() as int, token as int),
        ensures
            r == tables.action_of(self.top() as int, token as int),
    {
        let state = self.state_stack[self.state_stack.len() - 1];
        get_action(&tables.action, state, token)
    }

    /// Whether a step on `token` is defined here.
    pub fn is_step_defined(&self, tables: &ParseTables, token: usize) -> (r: bool)
        requires
            self.wf(),
        ensures
            r == self.can_step(tables, token as int),
    {
        if !tables.action.is_wf() || !tables.goto.is_wf() {
            return false;
        }
        let state = self.state_stack[self.state_stack.len() - 1];
        if !tables.action.is_in_range(state, token) {
            return false;
        }
        match get_action(&tables.action, state, token) {
            LRAction::Reduce(e) => self.is_reduce_defined(tables, e),
            LRAction::Accept(e) => self.is_reduce_defined(tables, e),
            _ => true,
        }
    }

    /// Whether a reduction by `expr` is defined here.
    fn is_reduce_defined(&self, tables: &ParseTables, expr: usize) -> (r: bool)
        requires
            self.wf(),
            tables.goto.wf(),
        ensures
            r == self.can_reduce_by(tables, expr as int),
    {
        if expr >= tables.expr_lens.len() || expr >= tables.expr_ids.len() {
            return false;
        }
        let len = tables.expr_lens[expr];
        if len >= self.state_stack.len() {
            return false;
        }
        let under = self.state_stack[self.state_stack.len() - len - 1];
        if !tables.goto.is_in_range(under, tables.expr_ids[expr]) {
            return false;
        }
        get_goto(&tables.goto, &tables.expr_ids, under, expr).is_some()
    }

    /// Reduces by `expr`: pops the production's states and values, pushes
    /// the goto state and the value `act` makes of the popped values.
    fn reduce<F: Fn(usize, Vec<V>) -> V>(&mut self, tables: &ParseTables, expr: usize, act: &F)
        requires
            old(self).wf(),
            tables.goto.wf(),
            old(self).can_reduce_by(tables, expr as int),
            forall|e: usize, vs: Vec<V>| #[trigger] call_requires(*act, (e, vs)),
        ensures
            final(self).wf(),
            final(self).reduced_from(old(self), tables, expr, act),
    {
        let pop_idx = self.state_stack.len() - tables.expr_lens[expr];
        let _ = self.state_stack.split_off(pop_idx);
        let state = self.state_stack[self.state_stack.len() - 1];
        let next = get_goto(&tables.goto, &tables.expr_ids, state, expr);
        self.state_stack.push(next.unwrap());
        let values = self.value_stack.split_off(pop_idx);
        let ghost popped = values;
        let value = act(expr, values);
        self.value_stack.push(value);
        self.last_reduced = expr;
        assert(self.value_stack@[pop_idx as int] == value);
        assert(popped@ == old(self).value_stack@.subrange(pop_idx as int, old(self).value_stack.len() as int));
        assert(call_ensures(*act, (expr, popped), self.value_stack@[pop_idx as int]));
        assert(self.value_stack@.subrange(0, pop_idx as int) =~= old(self).value_stack@.subrange(0, pop_idx as int));
        assert(self.state_stack@ =~= old(self).state_stack@.subrange(0, pop_idx as int).push(next->0));
    }

    /// One step on the next token `token`, whose value is `value`: reduces
    /// (and, on `Accept`, stops there), shifts the token, or finds it a
    /// syntax error and leaves the machine as it was.
    pub fn step<F: Fn(usize, Vec<V>) -> V>(&mut self, tables: &ParseTables, token: usize, value: V, act: &F) -> (r:
        ParseStep)
        requires
            old(self).wf(),
            old(self).can_step(tables, token as int),
            forall|e: usize, vs: Vec<V>| #[trigger] call_requires(*act, (e, vs)),
        ensures
            final(self).wf(),
            match tables.action_of(old(self).top() as int, token as int) {
                LRAction::Reduce(e) => r == ParseStep::Reduced(e) && final(self).reduced_from(
                    old(self),
                    tables,
                    e,
                    act,
                ),
                LRAction::Accept(e) => r == ParseStep::Accepted(e) && final(self).reduced_from(
                    old(self),
                    tables,
                    e,
                    act,
                ),
                LRAction::Shift(s) => {
                    &&& r == ParseStep::Shifted(s)
                    &&& final(self).state_stack@ == old(self).state_stack@.push(s)
                    &&& final(self).value_stack@ == old(self).value_stack@.push(value)
                    &&& final(self).last_reduced == old(self).last_reduced
                },
                LRAction::Error => r == ParseStep::Failed && *final(self) == *old(self),
            },
    {
        let action = self.action(tables, token);
        match action {
            LRAction::Reduce(e) => {
                self.reduce(tables, e, act);
                ParseStep::Reduced(e)
            },
            LRAction::Accept(e) => {
                self.reduce(tables, e, act);
                ParseStep::Accepted(e)
            },
            _ => self.shift(tables, token, value),
        }
    }

    /// Shifts `token`, whose value is `value`, when the action of the top
    /// state on it is a shift; reports the syntax error when it is `Error`.
    fn shift(&mut self, tables: &ParseTables, token: usize, value: V) -> (r: ParseStep)
        requires
            old(self).wf(),
            tables.action.wf(),
            tables.action.in_range(old(self).top() as int, token as int),
            tables.action_of(old(self).top() as int, token as int) is Shift || tables.action_of(
                old(self).top() as int,
                token as int,
            ) is Error,
        ensures
            final(self).wf(),
            match tables.action_of(old(self).top() as int, token as int) {
                LRAction::Shift(s) => {
                    &&& r == ParseStep::Shifted(s)
                    &&& final(self).state_stack@ == old(self).state_stack@.push(s)
                    &&& final(self).value_stack@ == old(self).value_stack@.push(value)
                    &&& final(self).last_reduced == old(self).last_reduced
                },
                _ => r == ParseStep::Failed && *final(self) == *old(self),
            },
    {
        match self.action(tables, token) {
            LRAction::Shift(s) => {
                self.state_stack.push(s);
                self.value_stack.push(value);
                ParseStep::Shifted(s)
            },
            _ => ParseStep::Failed,
        }
    }

    /// The syntax error at `span`, named after the latest reduction.
    pub fn error(&self, tables: &ParseTables, span: Span) -> (r: ParserError)
        requires
            self.last_reduced < tables.expr_names.len(),
        ensures
            r.span == span,
            r.msg@ == "Syntax Error"@,
            r.name@ == tables.expr_names@[self.last_reduced as int]@,
    {
        ParserError::new(span, "Syntax Error", tables.expr_names[self.last_reduced])
    }

    /// The value on top of the stack, which the parse leaves as its result.
    pub fn finish(self) -> (r: V)
        requires
            self.wf(),
        ensures
            r == self.value_stack@.last(),
    {
        let mut values = self.value_stack;
        values.pop().unwrap()
    }
}

} // verus!
