//! Lookups in the compressed LR tables: the action of a state on a token,
//! and the state a state goes to after a reduction.
use crate::utils::compress::{compressed_cell, compresses, matrix_cell, slot_used};
use vstd::prelude::*;

verus! {

/// The start state of the automaton.
pub const INIT_STATE: usize = 0;

/// The token number that marks the end of input.
pub const END_SYMBOL: usize = 0;

/// A cell of the action table.
#[derive(Debug, Clone, Copy, PartialEq, Eq, Structural)]
pub enum LRAction {
    Reduce(usize),
    Shift(usize),
    Accept(usize),
    Error,
}

/// A parse table compressed by rows.
///
/// - `row_id`: the row of each state; states with equal rows share one
/// - `base`, `next`, `check`: the rows as `compress_matrix` lays them out
pub struct CompressedTable<T> {
    pub row_id: Vec<usize>,
    pub base: Vec<Option<usize>>,
    pub next: Vec<T>,
    pub check: Vec<Option<usize>>,
}

impl<T> CompressedTable<T> {
    /// The table is readable: every state has a row, and every taken slot
    /// lies in `next`.
    pub open spec fn wf(&self) -> bool {
        &&& forall|s: int| 0 <= s < self.row_id.len() ==> #[trigger] self.row_id@[s] < self.base.len()
        &&& forall|p: int| #[trigger] slot_used(self.check@, p) ==> p < self.next.len()
    }

    /// The slot a lookup of (`state`, `col`) reads lies inside `check`, as
    /// the lookup does not test it.
    pub open spec fn in_range(&self, state: int, col: int) -> bool {
        &&& 0 <= state < self.row_id.len()
        &&& self.base@[self.row_id@[state] as int] matches Some(b) ==> b + col < self.check.len()
    }

    /// Cell (`state`, `col`) as the table holds it: `None` for an empty cell.
    pub open spec fn cell(&self, state: int, col: int) -> Option<T> {
        compressed_cell(self.base@, self.next@, self.check@, self.row_id@[state] as int, col)
    }

    /// Whether the table is readable.
    pub fn is_wf(&self) -> (r: bool)
        ensures
            r == self.wf(),
    {
        let mut s: usize = 0;
        while s < self.row_id.len()
            invariant
                s <= self.row_id.len(),
                forall|k: int| 0 <= k < s ==> #[trigger] self.row_id@[k] < self.base.len(),
            decreases self.row_id.len() - s,
        {
            if self.row_id[s] >= self.base.len() {
                return false;
            }
            s = s + 1;
        }
        let mut p: usize = 0;
        while p < self.check.len()
            invariant
                p <= self.check.len(),
                forall|k: int| 0 <= k < p && #[trigger] slot_used(self.check@, k) ==> k < self.next.len(),
            decreases self.check.len() - p,
        {
            if self.check[p].is_some() && p >= self.next.len() {
                assert(slot_used(self.check@, p as int));
                return false;
            }
            p = p + 1;
        }
        true
    }

    /// Whether a lookup of (`state`, `col`) stays inside the table.
    pub fn is_in_range(&self, state: usize, col: usize) -> (r: bool)
        requires
            self.wf(),
        ensures
            r == self.in_range(state as int, col as int),
    {
        if state >= self.row_id.len() {
            return false;
        }
        match self.base[self.row_id[state]] {
            None => true,
            Some(b) => b as u128 + (col as u128) < self.check.len() as u128,
        }
    }
}

/// The action of `state` on token `token`; `Error` for an empty cell.
pub fn get_action(table: &CompressedTable<LRAction>, state: usize, token: usize) -> (r: LRAction)
    requires
        table.wf(),
        table.in_range(state as int, token as int),
    ensures
        r == (match table.cell(state as int, token as int) {
            Some(a) => a,
            None => LRAction::Error,
        }),
{
    let row_id = table.row_id[state];
    let base = table.base[row_id];
    if base.is_none() {
        return LRAction::Error;
    }
    let idx = base.unwrap() + token;
    let check = match table.check[idx] {
        None => return LRAction::Error,
        Some(x) => x,
    };
    if check == row_id {
        assert(slot_used(table.check@, idx as int));
        table.next[idx]
    } else {
        LRAction::Error
    }
}

/// The state `state` goes to after reducing by production `prod_id`, whose
/// column is `expr_ids[prod_id]`; `None` for an empty cell.
pub fn get_goto(table: &CompressedTable<Option<usize>>, expr_ids: &Vec<usize>, state: usize, prod_id: usize) -> (r:
    Option<usize>)
    requires
        table.wf(),
        prod_id < expr_ids.len(),
        table.in_range(state as int, expr_ids@[prod_id as int] as int),
    ensures
        r == (match table.cell(state as int, expr_ids@[prod_id as int] as int) {
            Some(x) => x,
            None => None,
        }),
{
    let row_id = table.row_id[state];
    let rule_id = expr_ids[prod_id];
    let base = match table.base[row_id] {
        None => return None,
        Some(b) => b,
    };
    let idx = base + rule_id;
    let check = match table.check[idx] {
        None => return None,
        Some(x) => x,
    };
    if check == row_id {
        assert(slot_used(table.check@, idx as int));
        table.next[idx]
    } else {
        None
    }
}

/// A table whose rows are a compression of `matrix` reads back every cell
/// of the state's row as `matrix` holds it, and nothing where the row keeps
/// no cell.
pub proof fn lemma_table_reads_matrix<T: PartialEq>(
    table: CompressedTable<T>,
    matrix: Seq<Vec<T>>,
    zero: T,
    state: int,
    col: int,
)
    requires
        compresses(matrix, zero, table.base@, table.next@, table.check@),
        0 <= state < table.row_id.len(),
        table.row_id@[state] < matrix.len(),
        0 <= col,
    ensures
        table.cell(state, col) == matrix_cell(matrix, zero, table.row_id@[state] as int, col),
{
}

} // verus!
