use crate::lex::types::{ClassID, StateID, StateMeta};
use vstd::prelude::*;

verus! {

/// A deterministic automaton stored as a dense matrix: one row per state and
/// one column per character class.
///
/// - `states`: the meta of every state
/// - `transitions`: `transitions[state][class]` is the next state, if any
/// - `init_state`: the start state
/// - `stride`: the number of classes, the length of each row
#[derive(Debug)]
pub struct DFA {
    states: Vec<Option<StateMeta>>,
    transitions: Vec<Vec<Option<StateID>>>,
    init_state: StateID,
    stride: usize,
}

impl DFA {
    /// The automaton is well formed: one row of `stride` cells per state,
    /// and every state carries a meta.
    pub closed spec fn wf(&self) -> bool {
        &&& self.transitions.len() == self.states.len()
        &&& forall|i: int| 0 <= i < self.transitions.len() ==> #[trigger] self.transitions[i].len() == self.stride
        &&& forall|i: int| 0 <= i < self.states.len() ==> #[trigger] self.states[i] is Some
    }

    /// Number of states.
    pub closed spec fn num_states(&self) -> nat {
        self.states@.len()
    }

    /// Number of character classes.
    pub closed spec fn spec_stride(&self) -> nat {
        self.stride as nat
    }

    /// The start state.
    pub closed spec fn spec_init_state(&self) -> StateID {
        self.init_state
    }

    /// The meta of state `s`.
    pub closed spec fn meta(&self, s: int) -> StateMeta {
        self.states[s].unwrap()
    }

    /// The transition of state `s` on class `c`.
    pub closed spec fn trans(&self, s: int, c: int) -> Option<StateID> {
        self.transitions[s][c]
    }

    /// An automaton of `states_sz` ordinary states and no transitions.
    pub fn new(init_state: StateID, states_sz: usize, stride: usize) -> (r: DFA)
        ensures
            r.wf(),
            r.num_states() == states_sz,
            r.spec_stride() == stride,
            r.spec_init_state() == init_state,
            forall|s: int| 0 <= s < states_sz ==> #[trigger] r.meta(s) == StateMeta::spec_default(),
            forall|s: int, c: int| 0 <= s < states_sz && 0 <= c < stride ==> #[trigger] r.trans(s, c) is None,
    {
        let mut states: Vec<Option<StateMeta>> = Vec::new();
        let mut transitions: Vec<Vec<Option<StateID>>> = Vec::new();
        let mut i: usize = 0;
        while i < states_sz
            invariant
                i <= states_sz,
                states.len() == i,
                forall|k: int| 0 <= k < i ==> #[trigger] states[k] == Some(StateMeta::spec_default()),
            decreases states_sz - i,
        {
            states.push(Some(StateMeta::default()));
            i = i + 1;
        }
        let mut j: usize = 0;
        while j < states_sz
            invariant
                j <= states_sz,
                transitions.len() == j,
                forall|k: int| 0 <= k < j ==> #[trigger] transitions[k].len() == stride,
                forall|k: int, c: int| 0 <= k < j && 0 <= c < stride ==> #[trigger] transitions[k][c] is None,
            decreases states_sz - j,
        {
            let row: Vec<Option<StateID>> = vec![None; stride];
            transitions.push(row);
            j = j + 1;
        }
        DFA { states, transitions, init_state, stride }
    }

    /// The start state.
    pub fn get_init_state(&self) -> (r: StateID)
        ensures
            r == self.spec_init_state(),
    {
        self.init_state
    }

    /// Replaces the meta of an existing state.
    pub fn add_state(&mut self, state_id: StateID, meta: StateMeta)
        requires
            old(self).wf(),
            state_id < old(self).num_states(),
        ensures
            final(self).wf(),
            final(self).num_states() == old(self).num_states(),
            final(self).spec_stride() == old(self).spec_stride(),
            final(self).spec_init_state() == old(self).spec_init_state(),
            final(self).meta(state_id as int) == meta,
            forall|s: int| 0 <= s < old(self).num_states() && s != state_id ==> #[trigger] final(self).meta(s) == old(self).meta(s),
            forall|s: int, c: int| #[trigger] final(self).trans(s, c) == old(self).trans(s, c),
            dfa_edited(*old(self), DfaEdit::SetMeta(state_id, meta), *final(self)),
    {
        self.states.set(state_id, Some(meta));
    }

    /// Whether the automaton is well formed.
    pub fn is_wf(&self) -> (r: bool)
        ensures
            r == self.wf(),
    {
        if self.transitions.len() != self.states.len() {
            return false;
        }
        let mut i: usize = 0;
        while i < self.states.len()
            invariant
                i <= self.states.len(),
                self.transitions.len() == self.states.len(),
                forall|k: int| 0 <= k < i ==> #[trigger] self.transitions[k].len() == self.stride,
                forall|k: int| 0 <= k < i ==> #[trigger] self.states[k] is Some,
            decreases self.states.len() - i,
        {
            if self.transitions[i].len() != self.stride || self.states[i].is_none() {
                return false;
            }
            i = i + 1;
        }
        true
    }

    /// Number of states.
    pub fn size(&self) -> (r: usize)
        ensures
            r == self.num_states(),
    {
        self.states.len()
    }

    /// Number of character classes.
    pub fn get_stride(&self) -> (r: usize)
        ensures
            r == self.spec_stride(),
    {
        self.stride
    }

    /// Whether state `state_id` carries a meta.
    pub fn is_exist(&self, state_id: StateID) -> (r: bool)
        requires
            self.wf(),
            state_id < self.num_states(),
        ensures
            r,
    {
        self.states[state_id].is_some()
    }

    /// The meta of a state.
    pub fn get_meta(&self, state_id: StateID) -> (r: &StateMeta)
        requires
            self.wf(),
            state_id < self.num_states(),
        ensures
            *r == self.meta(state_id as int),
    {
        self.states[state_id].as_ref().unwrap()
    }

    /// The meta of a state, for change in place.
    pub fn get_meta_mut(&mut self, state_id: StateID) -> (r: &mut StateMeta)
        requires
            old(self).wf(),
            state_id < old(self).num_states(),
        ensures
            *r == old(self).meta(state_id as int),
            final(self).wf(),
            final(self).num_states() == old(self).num_states(),
            final(self).spec_stride() == old(self).spec_stride(),
            final(self).spec_init_state() == old(self).spec_init_state(),
            final(self).meta(state_id as int) == *final(r),
            forall|s: int| 0 <= s < old(self).num_states() && s != state_id ==> #[trigger] final(self).meta(s) == old(self).meta(s),
            forall|s: int, c: int| #[trigger] final(self).trans(s, c) == old(self).trans(s, c),
            dfa_edited(*old(self), DfaEdit::SetMeta(state_id, *final(r)), *final(self)),
    {
        self.states[state_id].as_mut().unwrap()
    }

    /// The classes on which state `state_id` has a transition, in increasing order.
    pub fn get_symbols(&self, state_id: StateID) -> (r: Vec<ClassID>)
        requires
            self.wf(),
            state_id < self.num_states(),
        ensures
            forall|k: int| 0 <= k < r.len() ==> #[trigger] r[k] < self.spec_stride()
                && self.trans(state_id as int, r[k] as int) is Some,
            forall|c: int| 0 <= c < self.spec_stride() && (#[trigger] self.trans(state_id as int, c)) is Some
                ==> r@.contains(c as ClassID),
            forall|a: int, b: int| 0 <= a < b < r.len() ==> r[a] < r[b],
    {
        let row = &self.transitions[state_id];
        let mut out: Vec<ClassID> = Vec::new();
        let mut i: usize = 0;
        while i < row.len()
            invariant
                self.wf(),
                state_id < self.num_states(),
                *row == self.transitions[state_id as int],
                row.len() == self.stride,
                i <= row.len(),
                forall|k: int| 0 <= k < out.len() ==> #[trigger] out[k] < i
                    && self.trans(state_id as int, out[k] as int) is Some,
                forall|c: int| 0 <= c < i && (#[trigger] self.trans(state_id as int, c)) is Some
                    ==> out@.contains(c as ClassID),
                forall|a: int, b: int| 0 <= a < b < out.len() ==> out[a] < out[b],
            decreases row.len() - i,
        {
            let ghost before = out@;
            if row[i].is_some() {
                out.push(i);
                assert(out[out.len() - 1] == i);
                assert(forall|c: ClassID| before.contains(c) ==> out@.contains(c)) by {
                    assert forall|c: ClassID| before.contains(c) implies out@.contains(c) by {
                        let k = choose|k: int| 0 <= k < before.len() && before[k] == c;
                        assert(out@[k] == c);
                    }
                }
            }
            i = i + 1;
        }
        out
    }

    /// The transition of `state_id` on class `class_id`.
    pub fn find_next(&self, state_id: StateID, class_id: usize) -> (r: Option<StateID>)
        requires
            self.wf(),
            state_id < self.num_states(),
            class_id < self.spec_stride(),
        ensures
            r == self.trans(state_id as int, class_id as int),
    {
        assert(self.transitions[state_id as int].len() == self.stride);
        self.transitions[state_id][class_id]
    }

    /// Adds the transition `(origin, class) -> dest`; a transition already
    /// there for `(origin, class)` is overwritten.
    pub fn add_transition(&mut self, edge: (StateID, ClassID, StateID)) -> (r: &mut Self)
        requires
            old(self).wf(),
            edge.0 < old(self).num_states(),
            edge.2 < old(self).num_states(),
            edge.1 < old(self).spec_stride(),
        ensures
            r.wf(),
            r.num_states() == old(self).num_states(),
            r.spec_stride() == old(self).spec_stride(),
            r.spec_init_state() == old(self).spec_init_state(),
            forall|s: int| 0 <= s < old(self).num_states() ==> #[trigger] r.meta(s) == old(self).meta(s),
            r.trans(edge.0 as int, edge.1 as int) == Some(edge.2),
            forall|s: int, c: int|
                0 <= s < old(self).num_states() && 0 <= c < old(self).spec_stride() && !(s == edge.0 && c == edge.1)
                    ==> #[trigger] r.trans(s, c) == old(self).trans(s, c),
            dfa_edited(*old(self), DfaEdit::AddTransition(edge.0, edge.1, edge.2), *r),
            *final(self) == *final(r),
    {
        let (origin, class, dest) = edge;
        assert(self.transitions[origin as int].len() == self.stride);
        let mut row = self.transitions[origin].clone();
        row.set(class, Some(dest));
        self.transitions.set(origin, row);
        assert(self.transitions[origin as int][class as int] == Some(dest));
        assert(forall|i: int| 0 <= i < self.transitions.len() ==> #[trigger] self.transitions[i].len() == self.stride);
        self
    }
}


/// A change a caller makes to an automaton: giving a state a meta (with
/// `add_state`, or through `get_meta_mut`, the meta being what is left in
/// place), or adding a transition.
pub enum DfaEdit {
    SetMeta(StateID, StateMeta),
    AddTransition(StateID, ClassID, StateID),
}

/// `after` is `before` changed by `e`: the size, classes and start state
/// stay; a new meta replaces the state's meta alone, a new transition its
/// cell alone.
pub open spec fn dfa_edited(before: DFA, e: DfaEdit, after: DFA) -> bool {
    &&& after.wf()
    &&& after.num_states() == before.num_states()
    &&& after.spec_stride() == before.spec_stride()
    &&& after.spec_init_state() == before.spec_init_state()
    &&& match e {
        DfaEdit::SetMeta(t, m) => {
            &&& t < before.num_states()
            &&& after.meta(t as int) == m
            &&& forall|s: int| 0 <= s < before.num_states() && s != t ==> #[trigger] after.meta(s) == before.meta(s)
            &&& forall|s: int, c: int| #[trigger] after.trans(s, c) == before.trans(s, c)
        },
        DfaEdit::AddTransition(o, c, d) => {
            &&& after.trans(o as int, c as int) == Some(d)
            &&& forall|s: int| 0 <= s < before.num_states() ==> #[trigger] after.meta(s) == before.meta(s)
            &&& forall|s: int, k: int|
                0 <= s < before.num_states() && 0 <= k < before.spec_stride() && !(s == o && k == c) ==> #[trigger] after.trans(
                    s,
                    k,
                ) == before.trans(s, k)
        },
    }
}

/// The meta of state `s` after `edits`, starting from `m0`: the last one
/// given to it, or `m0` when none was.
pub open spec fn meta_after(m0: StateMeta, edits: Seq<DfaEdit>, s: int) -> StateMeta
    decreases edits.len(),
{
    if edits.len() == 0 {
        m0
    } else {
        match edits.last() {
            DfaEdit::SetMeta(t, m) => if t == s {
                m
            } else {
                meta_after(m0, edits.drop_last(), s)
            },
            _ => meta_after(m0, edits.drop_last(), s),
        }
    }
}

/// A state's meta is the last one given to it (by `add_state`, or left in
/// place through `get_meta_mut`), else the one it started with, which
/// `new` makes the default meta; adding transitions leaves metas alone.
pub proof fn lemma_meta_is_last_given(ds: Seq<DFA>, edits: Seq<DfaEdit>, s: int)
    requires
        ds.len() == edits.len() + 1,
        0 <= s < ds[0].num_states(),
        forall|i: int| 0 <= i < edits.len() ==> dfa_edited(#[trigger] ds[i], edits[i], ds[i + 1]),
    ensures
        ds.last().num_states() == ds[0].num_states(),
        ds.last().meta(s) == meta_after(ds[0].meta(s), edits, s),
    decreases edits.len(),
{
    if edits.len() > 0 {
        let k = edits.len() - 1;
        assert forall|i: int| 0 <= i < k implies dfa_edited(#[trigger] ds.drop_last()[i], edits.drop_last()[i], ds.drop_last()[i + 1]) by {
            assert(dfa_edited(ds[i], edits[i], ds[i + 1]));
        }
        lemma_meta_is_last_given(ds.drop_last(), edits.drop_last(), s);
        assert(dfa_edited(ds[k], edits[k], ds[k + 1]));
        assert(ds.drop_last().last() == ds[k]);
    }
}

} // verus!
