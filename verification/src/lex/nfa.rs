use crate::lex::types::{ClassID, StateID, StateMeta};
use std::collections::{BTreeMap, BTreeSet, HashMap};
use vstd::prelude::*;
use vstd::std_specs::btree::{spec_btree_keys_iter, spec_btree_map_iter};
use vstd::std_specs::hash::spec_hash_map_iter;
use vstd::std_specs::iter::IteratorSpec;

verus! {

/// An input symbol of a nondeterministic automaton: a character class, or
/// the empty word.
#[derive(Debug, Clone, Copy, PartialEq, Eq, Structural, PartialOrd, Ord, Hash)]
pub enum NFASymbol {
    Epsilon,
    ClassID(ClassID),
}

/// The ordered key of a symbol: the empty word before every class, classes
/// in increasing order.
pub open spec fn sym_key(s: NFASymbol) -> Option<ClassID> {
    match s {
        NFASymbol::Epsilon => None,
        NFASymbol::ClassID(c) => Some(c),
    }
}

/// The symbol of an ordered key.
pub open spec fn key_sym(k: Option<ClassID>) -> NFASymbol {
    match k {
        None => NFASymbol::Epsilon,
        Some(c) => NFASymbol::ClassID(c),
    }
}

fn to_key(s: NFASymbol) -> (k: Option<ClassID>)
    ensures
        k == sym_key(s),
{
    match s {
        NFASymbol::Epsilon => None,
        NFASymbol::ClassID(c) => Some(c),
    }
}

fn to_sym(k: Option<ClassID>) -> (s: NFASymbol)
    ensures
        s == key_sym(k),
        sym_key(s) == k,
{
    match k {
        None => NFASymbol::Epsilon,
        Some(c) => NFASymbol::ClassID(c),
    }
}

/// The keys of a map keyed by state, each once, in the map's own order.
fn state_keys<V>(m: &HashMap<StateID, V>) -> (r: Vec<StateID>)
    ensures
        r@.to_set() == m@.dom(),
        r@.no_duplicates(),
{
    let mut out: Vec<StateID> = Vec::new();
    let iter = m.iter();
    let ghost pairs = iter.remaining();
    assert(pairs.no_duplicates());
    for kv in it: iter
        invariant
            it.seq() == pairs,
            pairs == spec_hash_map_iter(m).remaining(),
            out@ == it.seq().take(it.index() as int).map_values(|p: (&StateID, &V)| *p.0),
    {
        out.push(*kv.0);
    }
    proof {
        assert(out@ =~= pairs.map_values(|p: (&StateID, &V)| *p.0));
        assert forall|k: StateID| m@.contains_key(k) implies out@.contains(k) by {
            assert(pairs.contains((&k, &m@[k])));
            let j = choose|j: int| 0 <= j < pairs.len() && pairs[j] == (&k, &m@[k]);
            assert(out@[j] == k);
        }
        assert forall|k: StateID| out@.contains(k) implies m@.contains_key(k) by {
            let j = choose|j: int| 0 <= j < out@.len() && out@[j] == k;
            assert(m@.contains_key(*pairs[j].0));
        }
        assert(out@.to_set() =~= m@.dom());
        assert forall|a: int, b: int| 0 <= a < out@.len() && 0 <= b < out@.len() && a != b implies out@[a] != out@[b] by {
            if out@[a] == out@[b] {
                assert(m@[*pairs[a].0] == *pairs[a].1);
                assert(m@[*pairs[b].0] == *pairs[b].1);
                assert(pairs[a] == pairs[b]);
            }
        }
    }
    out
}

/// The items of a set of states, each once, in increasing order.
fn state_set_items(set: &BTreeSet<StateID>) -> (r: Vec<StateID>)
    ensures
        r@.to_set() == set@,
        r@.no_duplicates(),
        forall|a: int, b: int| 0 <= a < b < r.len() ==> r@[a] < r@[b],
{
    let mut out: Vec<StateID> = Vec::new();
    let iter = set.iter();
    let ghost items = iter.remaining();
    for x in it: iter
        invariant
            it.seq() == items,
            items == spec_btree_keys_iter(set).remaining(),
            out@ == it.seq().take(it.index() as int).map_values(|p: &StateID| *p),
    {
        out.push(*x);
    }
    proof {
        assert(out@ =~= items.unref());
        lemma_state_items_increase(items);
        assert forall|a: int, b: int| 0 <= a < b < out.len() implies out@[a] < out@[b] by {
            assert(*items[a] == out@[a] && *items[b] == out@[b]);
        }
    }
    out
}

/// A set of states is walked in increasing order.
proof fn lemma_state_items_increase(items: Seq<&StateID>)
    requires
        vstd::std_specs::btree::increasing_seq(items),
    ensures
        forall|a: int, b: int| 0 <= a < b < items.len() ==> *items[a] < *items[b],
{
    broadcast use vstd::laws_cmp::group_laws_cmp, vstd::std_specs::btree::axiom_increasing_seq_meaning;

    assert(vstd::laws_cmp::obeys_cmp::<&StateID>());
    assert forall|a: int, b: int| 0 <= a < b < items.len() implies *items[a] < *items[b] by {
        assert(vstd::std_specs::cmp::OrdSpec::cmp_spec(&items[a], &items[b]) is Less);
    }
}

/// The items of a set of symbol keys, each once, in increasing order.
fn key_set_items(set: &BTreeSet<Option<ClassID>>) -> (r: Vec<Option<ClassID>>)
    ensures
        r@.to_set() == set@,
        r@.no_duplicates(),
        forall|a: int, b: int| 0 <= a < b < r.len() ==> key_before(r@[a], r@[b]),
{
    let mut out: Vec<Option<ClassID>> = Vec::new();
    let iter = set.iter();
    let ghost items = iter.remaining();
    for x in it: iter
        invariant
            it.seq() == items,
            items == spec_btree_keys_iter(set).remaining(),
            out@ == it.seq().take(it.index() as int).map_values(|p: &Option<ClassID>| *p),
    {
        out.push(*x);
    }
    proof {
        assert(out@ =~= items.unref());
        lemma_key_items_increase(items);
        assert forall|a: int, b: int| 0 <= a < b < out.len() implies key_before(out@[a], out@[b]) by {
            assert(*items[a] == out@[a] && *items[b] == out@[b]);
        }
    }
    out
}

/// Key `a` comes before key `b`: the empty word before every class, classes
/// in increasing order.
pub open spec fn key_before(a: Option<ClassID>, b: Option<ClassID>) -> bool {
    match (a, b) {
        (None, Some(_)) => true,
        (Some(x), Some(y)) => x < y,
        _ => false,
    }
}

/// A set of symbol keys is walked in increasing order.
proof fn lemma_key_items_increase(items: Seq<&Option<ClassID>>)
    requires
        vstd::std_specs::btree::increasing_seq(items),
    ensures
        forall|a: int, b: int| 0 <= a < b < items.len() ==> key_before(*items[a], *items[b]),
{
    broadcast use vstd::laws_cmp::group_laws_cmp, vstd::std_specs::btree::axiom_increasing_seq_meaning;

    assert(vstd::laws_cmp::obeys_cmp::<&Option<ClassID>>());
    assert forall|a: int, b: int| 0 <= a < b < items.len() implies key_before(*items[a], *items[b]) by {
        assert(vstd::std_specs::cmp::OrdSpec::cmp_spec(&items[a], &items[b]) is Less);
    }
}

/// The keys of the edge map, each once.
fn edge_keys(m: &BTreeMap<(StateID, Option<ClassID>), BTreeSet<StateID>>) -> (r: Vec<(StateID, Option<ClassID>)>)
    ensures
        r@.to_set() == m@.dom(),
        r@.no_duplicates(),
{
    let mut out: Vec<(StateID, Option<ClassID>)> = Vec::new();
    let iter = m.iter();
    let ghost pairs = iter.remaining();
    assert(pairs.no_duplicates());
    for kv in it: iter
        invariant
            it.seq() == pairs,
            pairs == spec_btree_map_iter(m).remaining(),
            out@ == it.seq().take(it.index() as int).map_values(
                |p: (&(StateID, Option<ClassID>), &BTreeSet<StateID>)| *p.0,
            ),
    {
        out.push(*kv.0);
    }
    proof {
        assert(out@ =~= pairs.map_values(|p: (&(StateID, Option<ClassID>), &BTreeSet<StateID>)| *p.0));
        assert forall|k: (StateID, Option<ClassID>)| m@.contains_key(k) implies out@.contains(k) by {
            assert(pairs.contains((&k, &m@[k])));
            let j = choose|j: int| 0 <= j < pairs.len() && pairs[j] == (&k, &m@[k]);
            assert(out@[j] == k);
        }
        assert forall|k: (StateID, Option<ClassID>)| out@.contains(k) implies m@.contains_key(k) by {
            let j = choose|j: int| 0 <= j < out@.len() && out@[j] == k;
            assert(m@.contains_key(*pairs[j].0));
        }
        assert(out@.to_set() =~= m@.dom());
        assert forall|a: int, b: int| 0 <= a < out@.len() && 0 <= b < out@.len() && a != b implies out@[a] != out@[b] by {
            if out@[a] == out@[b] {
                assert(m@[*pairs[a].0] == *pairs[a].1);
                assert(m@[*pairs[b].0] == *pairs[b].1);
                assert(pairs[a] == pairs[b]);
            }
        }
    }
    out
}

/// The set `s` with `off` added to each state.
pub open spec fn shift_set(s: Set<StateID>, off: nat) -> Set<StateID> {
    Set::new(|y: StateID| y >= off && s.contains((y - off) as StateID))
}

/// The map `m` with `off` added to each state.
pub open spec fn shift_map(m: Map<StateID, StateMeta>, off: nat) -> Map<StateID, StateMeta> {
    Map::new(|y: StateID| y >= off && m.contains_key((y - off) as StateID), |y: StateID| m[(y - off) as StateID])
}

/// Every state of `s` stays a state number once `off` is added.
pub open spec fn fits_shift(s: Set<StateID>, off: nat) -> bool {
    forall|x: StateID| #[trigger] s.contains(x) ==> x + off <= usize::MAX
}

/// The set `set` with `off` added to each state.
fn shift_states(set: &BTreeSet<StateID>, off: usize) -> (r: BTreeSet<StateID>)
    requires
        fits_shift(set@, off as nat),
    ensures
        r@ == shift_set(set@, off as nat),
{
    let items = state_set_items(set);
    let mut out: BTreeSet<StateID> = BTreeSet::new();
    let mut i: usize = 0;
    while i < items.len()
        invariant
            i <= items.len(),
            items@.to_set() == set@,
            fits_shift(set@, off as nat),
            forall|y: StateID| #[trigger] out@.contains(y) <==> (y >= off && items@.take(i as int).contains((y - off) as StateID)),
        decreases items.len() - i,
    {
        assert(items@.to_set().contains(items@[i as int]));
        let x = items[i];
        out.insert(x + off);
        proof {
            let t = items@.take(i as int);
            assert(items@.take(i + 1) =~= t.push(x));
            assert forall|y: StateID| #[trigger] out@.contains(y) <==> (y >= off && t.push(x).contains((y - off) as StateID)) by {
                vstd::seq_lib::lemma_seq_contains_after_push(t, x, (y - off) as StateID);
            }
        }
        i = i + 1;
    }
    proof {
        assert(items@.take(items.len() as int) =~= items@);
        assert forall|y: StateID| #[trigger] out@.contains(y) <==> shift_set(set@, off as nat).contains(y) by {
            if y >= off {
                assert(items@.contains((y - off) as StateID) <==> set@.contains((y - off) as StateID));
            }
        }
        assert(out@ =~= shift_set(set@, off as nat));
    }
    out
}

/// The least state of a set of states.
pub open spec fn least_state(s: Set<StateID>) -> StateID {
    choose|m: StateID| s.contains(m) && forall|k: StateID| #[trigger] s.contains(k) ==> m <= k
}

/// A least element of a set is the one `least_state` names.
proof fn lemma_least_state(s: Set<StateID>, m: StateID)
    requires
        s.contains(m),
        forall|k: StateID| #[trigger] s.contains(k) ==> m <= k,
    ensures
        least_state(s) == m,
{
    let c = least_state(s);
    assert(s.contains(c) && forall|k: StateID| #[trigger] s.contains(k) ==> c <= k);
    assert(c <= m && m <= c);
}

/// A list of every state of a set that has a state at most `bound` is not
/// empty.
proof fn lemma_nonempty_keys(keys: Seq<StateID>, s: Set<StateID>, bound: StateID)
    requires
        keys.to_set() == s,
        exists|k: StateID| #[trigger] s.contains(k) && k <= bound,
    ensures
        keys.len() > 0,
{
    let k = choose|k: StateID| #[trigger] s.contains(k) && k <= bound;
    assert(keys.to_set().contains(k));
}

/// The least item of a list of every state of a set is the least state of the
/// set, and lies at or below any state of the set.
proof fn lemma_min_is_least(keys: Seq<StateID>, s: Set<StateID>, m: StateID, bound: StateID)
    requires
        keys.to_set() == s,
        keys.contains(m),
        forall|j: int| 0 <= j < keys.len() ==> m <= #[trigger] keys[j],
        exists|k: StateID| #[trigger] s.contains(k) && k <= bound,
    ensures
        least_state(s) == m,
        m <= bound,
{
    assert forall|k: StateID| #[trigger] s.contains(k) implies m <= k by {
        assert(keys.to_set().contains(k));
        let j = choose|j: int| 0 <= j < keys.len() && keys[j] == k;
    }
    assert(keys.to_set().contains(m));
    lemma_least_state(s, m);
    let k = choose|k: StateID| #[trigger] s.contains(k) && k <= bound;
}

/// The least of a non-empty list of states.
fn min_of(v: &Vec<StateID>) -> (m: StateID)
    requires
        v.len() > 0,
    ensures
        v@.contains(m),
        forall|j: int| 0 <= j < v.len() ==> m <= #[trigger] v@[j],
{
    let mut m = v[0];
    let mut i: usize = 1;
    while i < v.len()
        invariant
            1 <= i <= v.len(),
            v@.contains(m),
            forall|j: int| 0 <= j < i ==> m <= #[trigger] v@[j],
        decreases v.len() - i,
    {
        if v[i] < m {
            m = v[i];
        }
        i = i + 1;
    }
    m
}

/// A nondeterministic automaton that can be grown and merged.
///
/// - `status`: the meta of every state
/// - `edges`: for a state and a symbol, the set of next states
/// - `status_edges`: for every state, the symbols it has edges on
/// - `initial_state`: the start state
/// - `terminated_states`: the states marked accepting by `set_terminate`
#[derive(Debug)]
pub struct NFA {
    status: HashMap<StateID, StateMeta>,
    edges: BTreeMap<(StateID, Option<ClassID>), BTreeSet<StateID>>,
    status_edges: HashMap<StateID, BTreeSet<Option<ClassID>>>,
    initial_state: StateID,
    terminated_states: BTreeSet<StateID>,
}

impl NFA {
    /// The meta of every state.
    pub closed spec fn states(&self) -> Map<StateID, StateMeta> {
        self.status@
    }

    /// The start state.
    pub closed spec fn init(&self) -> StateID {
        self.initial_state
    }

    /// The states `state` goes to on `sym`.
    pub closed spec fn targets(&self, state: StateID, sym: NFASymbol) -> Set<StateID> {
        if self.edges@.contains_key((state, sym_key(sym))) {
            self.edges@[(state, sym_key(sym))]@
        } else {
            Set::empty()
        }
    }

    /// Whether `state` has an edge on `sym`.
    pub closed spec fn has_edge(&self, state: StateID, sym: NFASymbol) -> bool {
        self.edges@.contains_key((state, sym_key(sym)))
    }

    /// In a well-formed automaton every edge leaves a state and leads to
    /// states, and the start state is accepting.
    pub proof fn lemma_edges_from_states(&self)
        requires
            self.wf(),
        ensures
            forall|s: StateID, sym: NFASymbol| #[trigger] self.has_edge(s, sym) ==> self.states().contains_key(s),
            forall|s: StateID, sym: NFASymbol, t: StateID|
                #[trigger] self.targets(s, sym).contains(t) ==> self.states().contains_key(t),
            self.terminated().contains(self.init()),
    {
    }

    /// The states marked accepting.
    pub closed spec fn terminated(&self) -> Set<StateID> {
        self.terminated_states@
    }

    /// The automaton is well formed: every state has its symbol set, which
    /// holds exactly the symbols it has edges on; every edge starts and ends
    /// at states; every accepting state is a state.
    pub closed spec fn wf(&self) -> bool {
        &&& self.status_edges@.dom() == self.status@.dom()
        &&& forall|k: (StateID, Option<ClassID>)| #[trigger] self.edges@.contains_key(k) ==> self.status@.contains_key(k.0)
        &&& forall|k: (StateID, Option<ClassID>), t: StateID|
            #[trigger] self.edges@.contains_key(k) && #[trigger] self.edges@[k]@.contains(t) ==> self.status@.contains_key(t)
        &&& forall|s: StateID, o: Option<ClassID>|
            #[trigger] self.status_edges@.contains_key(s) ==> (#[trigger] self.status_edges@[s]@.contains(o)
                <==> self.edges@.contains_key((s, o)))
        &&& self.terminated_states@.contains(self.initial_state)
        &&& self.status@.dom().finite()
    }

    /// The symbols `state` has edges on.
    pub closed spec fn symbols(&self, state: StateID) -> Set<NFASymbol> {
        Set::new(|s: NFASymbol| self.edges@.contains_key((state, sym_key(s))))
    }

    /// An empty automaton whose start state is `initial_state`, which is
    /// also its accepting state until others are marked; the start state is
    /// not added as a state.
    pub fn new(initial_state: StateID) -> (r: NFA)
        ensures
            r.wf(),
            r.states() == Map::<StateID, StateMeta>::empty(),
            r.init() == initial_state,
            r.terminated() == set![initial_state],
            forall|s: StateID, sym: NFASymbol| !(#[trigger] r.has_edge(s, sym)),
    {
        let mut terminated_states: BTreeSet<StateID> = BTreeSet::new();
        terminated_states.insert(initial_state);
        let r = NFA {
            status: HashMap::new(),
            edges: BTreeMap::new(),
            status_edges: HashMap::new(),
            initial_state,
            terminated_states,
        };
        assert(r.terminated() =~= set![initial_state]);
        r
    }

    /// Whether `state_id` is a state.
    pub fn exist(&self, state_id: StateID) -> (r: bool)
        ensures
            r == self.states().contains_key(state_id),
    {
        self.status.contains_key(&state_id)
    }

    /// The start state.
    pub fn get_init_state(&self) -> (r: StateID)
        ensures
            r == self.init(),
    {
        self.initial_state
    }

    /// The meta of a state.
    pub fn get_status(&self, state: StateID) -> (r: &StateMeta)
        requires
            self.states().contains_key(state),
        ensures
            *r == self.states()[state],
    {
        self.status.get(&state).unwrap()
    }

    /// The states marked accepting.
    pub fn get_terminated_states(&self) -> (r: &BTreeSet<StateID>)
        ensures
            r@ == self.terminated(),
    {
        &self.terminated_states
    }

    /// The states `state_id` goes to on `symbol`, if it has an edge on it.
    pub fn find_next(&self, state_id: StateID, symbol: NFASymbol) -> (r: Option<&BTreeSet<StateID>>)
        ensures
            r is Some <==> self.has_edge(state_id, symbol),
            r matches Some(set) ==> set@ == self.targets(state_id, symbol),
    {
        let key = (state_id, to_key(symbol));
        self.edges.get(&key)
    }

    /// Adds a state that is not there yet, with no edges.
    pub fn add_state(&mut self, state: StateID, meta: StateMeta) -> (r: &mut Self)
        requires
            old(self).wf(),
            !old(self).states().contains_key(state),
        ensures
            r.wf(),
            r.states() == old(self).states().insert(state, meta),
            r.init() == old(self).init(),
            r.terminated() == old(self).terminated(),
            forall|s: StateID, sym: NFASymbol| #[trigger] r.has_edge(s, sym) == old(self).has_edge(s, sym),
            forall|s: StateID, sym: NFASymbol| #[trigger] r.targets(s, sym) == old(self).targets(s, sym),
            forall|sym: NFASymbol| !(#[trigger] r.has_edge(state, sym)),
            nfa_edited(*old(self), NfaEdit::AddState(state, meta), *r),
            *final(self) == *final(r),
    {
        proof {
            old(self).lemma_edges_from_states();
        }
        self.status.insert(state, meta);
        self.status_edges.insert(state, BTreeSet::new());
        self
    }

    /// Marks an existing state accepting.
    pub fn set_terminate(&mut self, state: StateID)
        requires
            old(self).wf(),
            old(self).states().contains_key(state),
        ensures
            final(self).wf(),
            final(self).states() == old(self).states().insert(state, StateMeta {
                terminate: true,
                ..old(self).states()[state]
            }),
            final(self).init() == old(self).init(),
            final(self).terminated() == old(self).terminated().insert(state),
            forall|s: StateID, sym: NFASymbol| #[trigger] final(self).has_edge(s, sym) == old(self).has_edge(s, sym),
            forall|s: StateID, sym: NFASymbol| #[trigger] final(self).targets(s, sym) == old(self).targets(s, sym),
            nfa_edited(*old(self), NfaEdit::SetTerminate(state), *final(self)),
    {
        let mut meta = self.status.remove(&state).unwrap();
        meta.terminate = true;
        self.status.insert(state, meta);
        self.terminated_states.insert(state);
        assert(self.status@.dom() =~= old(self).status@.dom());
        assert(self.states() == states_edited(old(self).states(), NfaEdit::SetTerminate(state)));
        assert(self.terminated() == terminated_edited(old(self).terminated(), NfaEdit::SetTerminate(state)));
    }

    /// Adds an edge `from -> to` on `edge` between existing states.
    pub fn add_edge(&mut self, from: StateID, edge: NFASymbol, to: StateID) -> (r: &mut Self)
        requires
            old(self).wf(),
            old(self).states().contains_key(from),
            old(self).states().contains_key(to),
        ensures
            r.wf(),
            r.states() == old(self).states(),
            r.init() == old(self).init(),
            r.terminated() == old(self).terminated(),
            r.has_edge(from, edge),
            r.targets(from, edge) == old(self).targets(from, edge).insert(to),
            forall|s: StateID, sym: NFASymbol|
                !(s == from && sym == edge) ==> #[trigger] r.has_edge(s, sym) == old(self).has_edge(s, sym),
            forall|s: StateID, sym: NFASymbol|
                !(s == from && sym == edge) ==> #[trigger] r.targets(s, sym) == old(self).targets(s, sym),
            nfa_edited(*old(self), NfaEdit::AddEdge(from, edge, to), *r),
            *final(self) == *final(r),
    {
        let key = (from, to_key(edge));
        let mut set = match self.edges.get(&key) {
            Some(s) => s.clone(),
            None => BTreeSet::new(),
        };
        set.insert(to);
        self.edges.insert(key, set);
        let mut syms = self.status_edges.remove(&from).unwrap();
        syms.insert(to_key(edge));
        self.status_edges.insert(from, syms);
        assert(self.status_edges@.dom() =~= old(self).status_edges@.dom());
        proof {
            assert forall|s: StateID, sym: NFASymbol|
                !(s == from && sym == edge) implies #[trigger] self.has_edge(s, sym) == old(self).has_edge(s, sym) by {
                if sym_key(sym) == sym_key(edge) {
                    assert(sym == edge) by {
                        match sym { NFASymbol::Epsilon => {}, NFASymbol::ClassID(_) => {} }
                        match edge { NFASymbol::Epsilon => {}, NFASymbol::ClassID(_) => {} }
                    }
                }
            }
            assert forall|s: StateID, sym: NFASymbol|
                !(s == from && sym == edge) implies #[trigger] self.targets(s, sym) == old(self).targets(s, sym) by {
                if sym_key(sym) == sym_key(edge) {
                    assert(sym == edge) by {
                        match sym { NFASymbol::Epsilon => {}, NFASymbol::ClassID(_) => {} }
                        match edge { NFASymbol::Epsilon => {}, NFASymbol::ClassID(_) => {} }
                    }
                }
            }
        }
        self
    }

    /// Adds a copy of `other` with `off` added to each of its states; the
    /// copied states must all be new.
    fn merge_shifted(&mut self, other: &NFA, off: usize)
        requires
            old(self).wf(),
            other.wf(),
            fits_shift(other.states().dom(), off as nat),
            fits_shift(other.terminated(), off as nat),
            forall|s: StateID| #[trigger] other.states().contains_key(s) ==> !old(self).states().contains_key((s + off) as StateID),
        ensures
            final(self).wf(),
            final(self).states() == old(self).states().union_prefer_right(shift_map(other.states(), off as nat)),
            final(self).init() == old(self).init(),
            final(self).terminated() == old(self).terminated() + shift_set(other.terminated(), off as nat),
            forall|s: StateID, sym: NFASymbol| #[trigger] final(self).has_edge(s, sym) == (old(self).has_edge(s, sym) || (s >= off
                && other.has_edge((s - off) as StateID, sym))),
            forall|s: StateID, sym: NFASymbol| #[trigger] final(self).targets(s, sym) == old(self).targets(s, sym) + (if s >= off {
                shift_set(other.targets((s - off) as StateID, sym), off as nat)
            } else {
                Set::empty()
            }),
            nfa_edited(*old(self), NfaEdit::Merge(*other, off), *final(self)),
    {
        let keys = state_keys(&other.status);
        let mut i: usize = 0;
        while i < keys.len()
            invariant
                i <= keys.len(),
                old(self).wf(),
                other.wf(),
                fits_shift(other.states().dom(), off as nat),
                forall|s: StateID| #[trigger] other.states().contains_key(s) ==> !old(self).states().contains_key((s + off) as StateID),
                keys@.to_set() == other.status@.dom(),
                keys@.no_duplicates(),
                self.edges@ == old(self).edges@,
                self.terminated_states@ == old(self).terminated_states@,
                self.initial_state == old(self).initial_state,
                self.status_edges@.dom() == self.status@.dom(),
                forall|k: StateID| #[trigger] self.status@.contains_key(k) <==> (old(self).status@.contains_key(k) || (k >= off
                    && keys@.take(i as int).contains((k - off) as StateID))),
                forall|k: StateID| #[trigger] old(self).status@.contains_key(k) ==> self.status@[k] == old(self).status@[k]
                    && self.status_edges@[k] == old(self).status_edges@[k],
                forall|k: StateID| k >= off && #[trigger] keys@.take(i as int).contains((k - off) as StateID) ==> self.status@[k]
                    == other.status@[(k - off) as StateID] && self.status_edges@[k]@ == other.status_edges@[(k - off) as StateID]@,
            decreases keys.len() - i,
        {
            let k = keys[i];
            assert(keys@.to_set().contains(k));
            let meta = other.status.get(&k).unwrap().duplicate();
            let syms = other.status_edges.get(&k).unwrap().clone();
            let nk = k + off;
            self.status.insert(nk, meta);
            self.status_edges.insert(nk, syms);
            proof {
                let t = keys@.take(i as int);
                assert(keys@.take(i + 1) =~= t.push(k));
                assert(!old(self).status@.contains_key(nk));
                assert forall|q: StateID| #[trigger] t.push(k).contains(q) <==> (t.contains(q) || q == k) by {
                    vstd::seq_lib::lemma_seq_contains_after_push(t, k, q);
                }
                assert(!t.contains(k)) by {
                    if t.contains(k) {
                        let j = choose|j: int| 0 <= j < t.len() && t[j] == k;
                        assert(keys@[j] == keys@[i as int]);
                    }
                }
                assert(self.status_edges@.dom() =~= self.status@.dom());
            }
            i = i + 1;
        }
        let ghost st1 = self.status@;
        let ghost se1 = self.status_edges@;
        proof {
            assert(keys@.take(keys.len() as int) =~= keys@);
            assert forall|k: StateID| #[trigger] self.status@.contains_key(k) <==> (old(self).status@.contains_key(k) || (k >= off
                && other.status@.contains_key((k - off) as StateID))) by {
                if k >= off {
                    assert(keys@.contains((k - off) as StateID) <==> keys@.to_set().contains((k - off) as StateID));
                }
            }
            let target = old(self).status@.union_prefer_right(shift_map(other.status@, off as nat));
            assert forall|k: StateID| #[trigger] self.status@.contains_key(k) implies self.status@[k] == target[k] by {
                if k >= off && other.status@.contains_key((k - off) as StateID) {
                    assert(keys@.to_set().contains((k - off) as StateID));
                    assert(keys@.take(keys.len() as int).contains((k - off) as StateID));
                }
            }
            assert(self.status@ =~= target);
        }
        let ekeys = edge_keys(&other.edges);
        let mut e: usize = 0;
        while e < ekeys.len()
            invariant
                e <= ekeys.len(),
                old(self).wf(),
                other.wf(),
                fits_shift(other.states().dom(), off as nat),
                forall|s: StateID| #[trigger] other.states().contains_key(s) ==> !old(self).states().contains_key((s + off) as StateID),
                ekeys@.to_set() == other.edges@.dom(),
                ekeys@.no_duplicates(),
                self.status@ == st1,
                self.status_edges@ == se1,
                self.terminated_states@ == old(self).terminated_states@,
                self.initial_state == old(self).initial_state,
                forall|ek: (StateID, Option<ClassID>)| #[trigger] self.edges@.contains_key(ek) <==> (old(self).edges@.contains_key(ek)
                    || (ek.0 >= off && ekeys@.take(e as int).contains(((ek.0 - off) as StateID, ek.1)))),
                forall|ek: (StateID, Option<ClassID>)| #[trigger] old(self).edges@.contains_key(ek) ==> self.edges@[ek]
                    == old(self).edges@[ek],
                forall|ek: (StateID, Option<ClassID>)| ek.0 >= off && #[trigger] ekeys@.take(e as int).contains(
                    ((ek.0 - off) as StateID, ek.1),
                ) ==> self.edges@[ek]@ == shift_set(other.edges@[((ek.0 - off) as StateID, ek.1)]@, off as nat),
            decreases ekeys.len() - e,
        {
            let key = ekeys[e];
            assert(ekeys@.to_set().contains(key));
            let targets = other.edges.get(&key).unwrap();
            proof {
                assert forall|x: StateID| #[trigger] targets@.contains(x) implies x + off <= usize::MAX by {
                    assert(other.status@.contains_key(x));
                }
                assert(other.status@.contains_key(key.0));
            }
            let shifted = shift_states(targets, off);
            let nkey = (key.0 + off, key.1);
            self.edges.insert(nkey, shifted);
            proof {
                let t = ekeys@.take(e as int);
                assert(ekeys@.take(e + 1) =~= t.push(key));
                assert(!old(self).edges@.contains_key(nkey));
                assert forall|q: (StateID, Option<ClassID>)| #[trigger] t.push(key).contains(q) <==> (t.contains(q) || q == key) by {
                    vstd::seq_lib::lemma_seq_contains_after_push(t, key, q);
                }
                assert(!t.contains(key)) by {
                    if t.contains(key) {
                        let j = choose|j: int| 0 <= j < t.len() && t[j] == key;
                        assert(ekeys@[j] == ekeys@[e as int]);
                    }
                }
            }
            e = e + 1;
        }
        proof {
            assert(ekeys@.take(ekeys.len() as int) =~= ekeys@);
        }
        let titems = state_set_items(&other.terminated_states);
        let mut term = self.terminated_states.clone();
        let mut j: usize = 0;
        while j < titems.len()
            invariant
                j <= titems.len(),
                other.wf(),
                fits_shift(other.terminated(), off as nat),
                titems@.to_set() == other.terminated_states@,
                forall|y: StateID| #[trigger] term@.contains(y) <==> (old(self).terminated_states@.contains(y) || (y >= off
                    && titems@.take(j as int).contains((y - off) as StateID))),
            decreases titems.len() - j,
        {
            let x = titems[j];
            assert(titems@.to_set().contains(x));
            term.insert(x + off);
            proof {
                let t = titems@.take(j as int);
                assert(titems@.take(j + 1) =~= t.push(x));
                assert forall|y: StateID| #[trigger] term@.contains(y) <==> (old(self).terminated_states@.contains(y) || (y >= off
                    && t.push(x).contains((y - off) as StateID))) by {
                    vstd::seq_lib::lemma_seq_contains_after_push(t, x, (y - off) as StateID);
                }
            }
            j = j + 1;
        }
        proof {
            assert(titems@.take(titems.len() as int) =~= titems@);
            assert(term@ =~= old(self).terminated_states@ + shift_set(other.terminated_states@, off as nat)) by {
                assert forall|y: StateID| #[trigger] term@.contains(y) <==> (old(self).terminated_states@ + shift_set(
                    other.terminated_states@,
                    off as nat,
                )).contains(y) by {
                    if y >= off {
                        assert(titems@.contains((y - off) as StateID) <==> titems@.to_set().contains((y - off) as StateID));
                    }
                }
            }
        }
        self.terminated_states = term;
        proof {
            assert forall|s: StateID, sym: NFASymbol| #[trigger] self.has_edge(s, sym) == (old(self).has_edge(s, sym) || (s >= off
                && other.has_edge((s - off) as StateID, sym))) by {
                let ek = (s, sym_key(sym));
                assert(self.edges@.contains_key(ek) <==> (old(self).edges@.contains_key(ek) || (ek.0 >= off && ekeys@.take(
                    ekeys.len() as int,
                ).contains(((ek.0 - off) as StateID, ek.1)))));
                if s >= off {
                    assert(ekeys@.contains(((s - off) as StateID, sym_key(sym))) <==> ekeys@.to_set().contains(
                        ((s - off) as StateID, sym_key(sym)),
                    ));
                }
            }
            assert forall|s: StateID, sym: NFASymbol| #[trigger] self.targets(s, sym) == old(self).targets(s, sym) + (if s >= off {
                shift_set(other.targets((s - off) as StateID, sym), off as nat)
            } else {
                Set::empty()
            }) by {
                let ek = (s, sym_key(sym));
                if s >= off {
                    let ok = ((s - off) as StateID, sym_key(sym));
                    assert(ekeys@.contains(ok) <==> ekeys@.to_set().contains(ok));
                    if old(self).edges@.contains_key(ek) {
                        assert(old(self).status@.contains_key(s));
                        assert(!other.edges@.contains_key(ok)) by {
                            if other.edges@.contains_key(ok) {
                                assert(other.status@.contains_key((s - off) as StateID));
                            }
                        }
                    }
                }
                assert(self.targets(s, sym) =~= old(self).targets(s, sym) + (if s >= off {
                    shift_set(other.targets((s - off) as StateID, sym), off as nat)
                } else {
                    Set::empty()
                }));
            }
            // well-formedness
            assert forall|k: (StateID, Option<ClassID>)| #[trigger] self.edges@.contains_key(k) implies self.status@.contains_key(k.0) by {
                if !old(self).edges@.contains_key(k) {
                    let ok = ((k.0 - off) as StateID, k.1);
                    assert(ekeys@.contains(ok));
                    assert(ekeys@.to_set().contains(ok));
                    assert(other.status@.contains_key(ok.0));
                }
            }
            assert forall|k: (StateID, Option<ClassID>), t: StateID| #[trigger] self.edges@.contains_key(k)
                && #[trigger] self.edges@[k]@.contains(t) implies self.status@.contains_key(t) by {
                if !old(self).edges@.contains_key(k) {
                    let ok = ((k.0 - off) as StateID, k.1);
                    assert(ekeys@.contains(ok));
                    assert(ekeys@.to_set().contains(ok));
                    assert(other.edges@[ok]@.contains((t - off) as StateID));
                    assert(other.status@.contains_key((t - off) as StateID));
                }
            }
            assert forall|s: StateID, o: Option<ClassID>| #[trigger] self.status_edges@.contains_key(s) implies (
            #[trigger] self.status_edges@[s]@.contains(o) <==> self.edges@.contains_key((s, o))) by {
                if old(self).status@.contains_key(s) {
                    assert(self.status_edges@[s] == old(self).status_edges@[s]);
                    if !old(self).edges@.contains_key((s, o)) && self.edges@.contains_key((s, o)) {
                        let ok = ((s - off) as StateID, o);
                        assert(ekeys@.contains(ok));
                        assert(ekeys@.to_set().contains(ok));
                        assert(other.status@.contains_key(ok.0));
                    }
                } else {
                    let os = (s - off) as StateID;
                    assert(keys@.contains(os));
                    assert(keys@.to_set().contains(os));
                    assert(other.status_edges@.contains_key(os));
                    let ok = (os, o);
                    assert(ekeys@.contains(ok) <==> ekeys@.to_set().contains(ok));
                    assert(!old(self).edges@.contains_key((s, o)));
                }
            }
        }
    }

    /// The states, each once, in no particular order.
    pub fn get_status_ids(&self) -> (r: Vec<StateID>)
        ensures
            r@.to_set() == self.states().dom(),
            r@.no_duplicates(),
    {
        state_keys(&self.status)
    }

    /// Whether every state of `state_ids` is a state of the automaton.
    pub fn all_exists(&self, state_ids: &BTreeSet<StateID>) -> (r: bool)
        ensures
            r == state_ids@.subset_of(self.states().dom()),
    {
        let items = state_set_items(state_ids);
        let mut i: usize = 0;
        while i < items.len()
            invariant
                i <= items.len(),
                items@.to_set() == state_ids@,
                forall|j: int| 0 <= j < i ==> self.status@.contains_key(#[trigger] items@[j]),
            decreases items.len() - i,
        {
            if !self.exist(items[i]) {
                assert(state_ids@.contains(items@[i as int]));
                return false;
            }
            i = i + 1;
        }
        assert forall|x: StateID| state_ids@.contains(x) implies self.status@.contains_key(x) by {
            assert(items@.to_set().contains(x));
            let j = choose|j: int| 0 <= j < items@.len() && items@[j] == x;
        }
        true
    }

    /// The symbols `state` has edges on, each once: the empty word first,
    /// then the classes in increasing order.
    pub fn get_symbols(&self, state: StateID) -> (r: Vec<NFASymbol>)
        requires
            self.wf(),
            self.states().contains_key(state),
        ensures
            r@.no_duplicates(),
            forall|sym: NFASymbol| #[trigger] r@.contains(sym) <==> self.has_edge(state, sym),
            forall|a: int, b: int| 0 <= a < b < r.len() ==> key_before(sym_key(r@[a]), sym_key(r@[b])),
    {
        let keys = key_set_items(self.status_edges.get(&state).unwrap());
        let mut out: Vec<NFASymbol> = Vec::new();
        let mut i: usize = 0;
        while i < keys.len()
            invariant
                i <= keys.len(),
                keys@.no_duplicates(),
                out@.len() == i,
                forall|j: int| 0 <= j < i ==> #[trigger] sym_key(out@[j]) == keys@[j],
            decreases keys.len() - i,
        {
            out.push(to_sym(keys[i]));
            i = i + 1;
        }
        proof {
            let set = self.status_edges@[state]@;
            assert forall|sym: NFASymbol| #[trigger] out@.contains(sym) <==> self.has_edge(state, sym) by {
                if out@.contains(sym) {
                    let j = choose|j: int| 0 <= j < out@.len() && out@[j] == sym;
                    assert(keys@.to_set().contains(keys@[j]));
                    assert(set.contains(sym_key(sym)));
                }
                if self.has_edge(state, sym) {
                    assert(set.contains(sym_key(sym)));
                    assert(keys@.to_set().contains(sym_key(sym)));
                    let j = choose|j: int| 0 <= j < keys@.len() && keys@[j] == sym_key(sym);
                    assert(sym_key(out@[j]) == sym_key(sym));
                    assert(out@[j] == sym) by {
                        match sym { NFASymbol::Epsilon => {}, NFASymbol::ClassID(_) => {} }
                        match out@[j] { NFASymbol::Epsilon => {}, NFASymbol::ClassID(_) => {} }
                    }
                }
            }
            assert forall|a: int, b: int| 0 <= a < out@.len() && 0 <= b < out@.len() && a != b implies out@[a] != out@[b] by {
                assert(keys@[a] != keys@[b]);
                assert(sym_key(out@[a]) == keys@[a]);
                assert(sym_key(out@[b]) == keys@[b]);
            }
        }
        out
    }

    /// The meta of a state, for change in place.
    pub fn get_status_mut(&mut self, state: StateID) -> (r: &mut StateMeta)
        requires
            old(self).wf(),
            old(self).states().contains_key(state),
        ensures
            *r == old(self).states()[state],
            final(self).wf(),
            final(self).states() == old(self).states().insert(state, *final(r)),
            final(self).init() == old(self).init(),
            final(self).terminated() == old(self).terminated(),
            forall|s: StateID, sym: NFASymbol| #[trigger] final(self).has_edge(s, sym) == old(self).has_edge(s, sym),
            forall|s: StateID, sym: NFASymbol| #[trigger] final(self).targets(s, sym) == old(self).targets(s, sym),
            nfa_edited(*old(self), NfaEdit::SetStatus(state, *final(r)), *final(self)),
    {
        proof {
            assert forall|v: StateMeta| #[trigger] old(self).status@.insert(state, v).dom() == old(self).status@.dom() by {
                assert(old(self).status@.insert(state, v).dom() =~= old(self).status@.dom());
            }
        }
        self.status.entry(state).or_insert(StateMeta::default())
    }

    /// A copy of the automaton whose start state is `initial_state`, with
    /// every state moved up by `initial_state` minus the current start state.
    pub fn clone(&self, initial_state: usize) -> (r: NFA)
        requires
            self.wf(),
            initial_state >= self.init(),
            fits_shift(self.states().dom(), (initial_state - self.init()) as nat),
            fits_shift(self.terminated(), (initial_state - self.init()) as nat),
        ensures
            r.wf(),
            r.init() == initial_state,
            r.states() == shift_map(self.states(), (initial_state - self.init()) as nat),
            r.terminated() == shift_set(self.terminated(), (initial_state - self.init()) as nat),
            forall|s: StateID, sym: NFASymbol| #[trigger] r.has_edge(s, sym) == (s >= initial_state - self.init()
                && self.has_edge((s - (initial_state - self.init())) as StateID, sym)),
            forall|s: StateID, sym: NFASymbol| #[trigger] r.targets(s, sym) == (if s >= initial_state - self.init() {
                shift_set(self.targets((s - (initial_state - self.init())) as StateID, sym), (initial_state - self.init()) as nat)
            } else {
                Set::empty()
            }),
    {
        let offset = initial_state - self.initial_state;
        let mut nfa = NFA::new(initial_state);
        nfa.merge_shifted(self, offset);
        proof {
            assert(nfa.states() =~= shift_map(self.states(), offset as nat));
            assert(nfa.terminated() =~= shift_set(self.terminated(), offset as nat));
            assert forall|s: StateID, sym: NFASymbol| #[trigger] nfa.targets(s, sym) == (if s >= offset {
                shift_set(self.targets((s - offset) as StateID, sym), offset as nat)
            } else {
                Set::empty()
            }) by {
                assert(nfa.targets(s, sym) =~= (if s >= offset {
                    shift_set(self.targets((s - offset) as StateID, sym), offset as nat)
                } else {
                    Set::empty()
                }));
            }
        }
        nfa
    }

    /// Takes in all states, edges and accepting states of `other`, whose
    /// states must all be new; returns the start state of `other`.
    pub fn merge(&mut self, other: NFA) -> (r: StateID)
        requires
            old(self).wf(),
            other.wf(),
            forall|s: StateID| #[trigger] other.states().contains_key(s) ==> !old(self).states().contains_key(s),
        ensures
            r == other.init(),
            final(self).wf(),
            final(self).states() == old(self).states().union_prefer_right(other.states()),
            final(self).init() == old(self).init(),
            final(self).terminated() == old(self).terminated() + other.terminated(),
            forall|s: StateID, sym: NFASymbol| #[trigger] final(self).has_edge(s, sym) == (old(self).has_edge(s, sym)
                || other.has_edge(s, sym)),
            forall|s: StateID, sym: NFASymbol| #[trigger] final(self).targets(s, sym) == old(self).targets(s, sym)
                + other.targets(s, sym),
            nfa_edited(*old(self), NfaEdit::Merge(other, 0), *final(self)),
    {
        proof {
            assert(shift_map(other.states(), 0) =~= other.states());
            assert(shift_set(other.terminated(), 0) =~= other.terminated());
        }
        self.merge_shifted(&other, 0);
        proof {
            assert forall|s: StateID, sym: NFASymbol| #[trigger] self.targets(s, sym) == old(self).targets(s, sym)
                + other.targets(s, sym) by {
                assert(shift_set(other.targets(s, sym), 0) =~= other.targets(s, sym));
            }
        }
        other.initial_state
    }

    /// How far `merge_offset` moves the states of `self` so that its least
    /// state becomes `init_state`.
    pub open spec fn offset_to(&self, init_state: StateID) -> int {
        init_state - least_state(self.states().dom())
    }

    /// Takes in a copy of `other` moved so that its least state becomes
    /// `init_state`; the moved states must all be new. Returns the moved
    /// start state of `other`.
    #[verifier::rlimit(60)]
    pub fn merge_offset(&mut self, other: &NFA, init_state: StateID) -> (r: StateID)
        requires
            old(self).wf(),
            other.wf(),
            exists|k: StateID| #[trigger] other.states().contains_key(k) && k <= init_state,
            fits_shift(other.states().dom(), other.offset_to(init_state) as nat),
            fits_shift(other.terminated(), other.offset_to(init_state) as nat),
            other.init() + other.offset_to(init_state) <= usize::MAX,
            forall|s: StateID| #[trigger] other.states().contains_key(s) ==> !old(self).states().contains_key(
                (s + other.offset_to(init_state)) as StateID,
            ),
        ensures
            r == other.init() + other.offset_to(init_state),
            final(self).wf(),
            final(self).states() == old(self).states().union_prefer_right(
                shift_map(other.states(), other.offset_to(init_state) as nat),
            ),
            final(self).init() == old(self).init(),
            final(self).terminated() == old(self).terminated() + shift_set(
                other.terminated(),
                other.offset_to(init_state) as nat,
            ),
            forall|s: StateID, sym: NFASymbol| #[trigger] final(self).has_edge(s, sym) == (old(self).has_edge(s, sym) || (s
                >= other.offset_to(init_state) && other.has_edge((s - other.offset_to(init_state)) as StateID, sym))),
            forall|s: StateID, sym: NFASymbol| #[trigger] final(self).targets(s, sym) == old(self).targets(s, sym) + (if s
                >= other.offset_to(init_state) {
                shift_set(
                    other.targets((s - other.offset_to(init_state)) as StateID, sym),
                    other.offset_to(init_state) as nat,
                )
            } else {
                Set::empty()
            }),
            nfa_edited(*old(self), NfaEdit::Merge(*other, other.offset_to(init_state) as usize), *final(self)),
    {
        let keys = state_keys(&other.status);
        proof {
            lemma_nonempty_keys(keys@, other.states().dom(), init_state);
        }
        let min_state = min_of(&keys);
        proof {
            lemma_min_is_least(keys@, other.states().dom(), min_state, init_state);
        }
        let offset = init_state - min_state;
        self.merge_shifted(other, offset);
        other.initial_state + offset
    }
}

/// When the start state of `other` is its least state, `merge_offset`
/// moves `other` exactly as far as `clone` does: putting a copy of `other`
/// whose start state is `init_state` in place.
pub proof fn lemma_merge_offset_moves_like_clone(other: NFA, init_state: StateID)
    requires
        other.wf(),
        other.states().contains_key(other.init()),
        forall|k: StateID| #[trigger] other.states().contains_key(k) ==> other.init() <= k,
        other.init() <= init_state,
    ensures
        other.offset_to(init_state) == init_state - other.init(),
{
    lemma_least_state(other.states().dom(), other.init());
}


/// A change a caller makes to an automaton: adding a state, adding an
/// edge, marking a state accepting, giving a state a meta through
/// `get_status_mut` (the meta being what is left in place), or taking in
/// another automaton moved up by an offset (`merge` moves it by nothing,
/// `merge_offset` by `offset_to`).
pub enum NfaEdit {
    AddState(StateID, StateMeta),
    AddEdge(StateID, NFASymbol, StateID),
    SetTerminate(StateID),
    SetStatus(StateID, StateMeta),
    Merge(NFA, usize),
}

/// What edit `e` makes of the states `m`.
pub open spec fn states_edited(m: Map<StateID, StateMeta>, e: NfaEdit) -> Map<StateID, StateMeta> {
    match e {
        NfaEdit::AddState(s, meta) => m.insert(s, meta),
        NfaEdit::AddEdge(..) => m,
        NfaEdit::SetTerminate(s) => m.insert(s, StateMeta { terminate: true, ..m[s] }),
        NfaEdit::SetStatus(s, meta) => m.insert(s, meta),
        NfaEdit::Merge(o, off) => m.union_prefer_right(shift_map(o.states(), off as nat)),
    }
}

/// What edit `e` makes of the accepting states `t`.
pub open spec fn terminated_edited(t: Set<StateID>, e: NfaEdit) -> Set<StateID> {
    match e {
        NfaEdit::SetTerminate(s) => t.insert(s),
        NfaEdit::Merge(o, off) => t + shift_set(o.terminated(), off as nat),
        _ => t,
    }
}

/// What edit `e` makes of the targets `t` of state `s` on `sym`.
pub open spec fn targets_edited(t: Set<StateID>, e: NfaEdit, s: StateID, sym: NFASymbol) -> Set<StateID> {
    match e {
        NfaEdit::AddEdge(f, x, to) => if f == s && x == sym {
            t.insert(to)
        } else {
            t
        },
        NfaEdit::Merge(o, off) => t + (if s >= off {
            shift_set(o.targets((s - off) as StateID, sym), off as nat)
        } else {
            Set::empty()
        }),
        _ => t,
    }
}

/// What edit `e` makes of whether state `s` has an edge on `sym`.
pub open spec fn has_edge_edited(h: bool, e: NfaEdit, s: StateID, sym: NFASymbol) -> bool {
    match e {
        NfaEdit::AddEdge(f, x, _) => h || (f == s && x == sym),
        NfaEdit::Merge(o, off) => h || (s >= off && o.has_edge((s - off) as StateID, sym)),
        _ => h,
    }
}

/// `after` is `before` changed by `e`, as the function making the change
/// states it; the start state stays.
pub open spec fn nfa_edited(before: NFA, e: NfaEdit, after: NFA) -> bool {
    &&& after.wf()
    &&& after.init() == before.init()
    &&& after.states() == states_edited(before.states(), e)
    &&& after.terminated() == terminated_edited(before.terminated(), e)
    &&& forall|s: StateID, sym: NFASymbol| #[trigger] after.targets(s, sym) == targets_edited(before.targets(s, sym), e, s, sym)
    &&& forall|s: StateID, sym: NFASymbol| #[trigger] after.has_edge(s, sym) == has_edge_edited(before.has_edge(s, sym), e, s, sym)
}

/// The states after `edits`, starting from `m`.
pub open spec fn states_after(m: Map<StateID, StateMeta>, edits: Seq<NfaEdit>) -> Map<StateID, StateMeta>
    decreases edits.len(),
{
    if edits.len() == 0 {
        m
    } else {
        states_edited(states_after(m, edits.drop_last()), edits.last())
    }
}

/// The accepting states after `edits`, starting from `t`.
pub open spec fn terminated_after(t: Set<StateID>, edits: Seq<NfaEdit>) -> Set<StateID>
    decreases edits.len(),
{
    if edits.len() == 0 {
        t
    } else {
        terminated_edited(terminated_after(t, edits.drop_last()), edits.last())
    }
}

/// The targets of `s` on `sym` after `edits`, starting from `t`: the
/// targets of every edge added, directly or by a merge.
pub open spec fn targets_after(t: Set<StateID>, edits: Seq<NfaEdit>, s: StateID, sym: NFASymbol) -> Set<StateID>
    decreases edits.len(),
{
    if edits.len() == 0 {
        t
    } else {
        targets_edited(targets_after(t, edits.drop_last(), s, sym), edits.last(), s, sym)
    }
}

/// Whether `s` has an edge on `sym` after `edits`, starting from `h`.
pub open spec fn has_edge_after(h: bool, edits: Seq<NfaEdit>, s: StateID, sym: NFASymbol) -> bool
    decreases edits.len(),
{
    if edits.len() == 0 {
        h
    } else {
        has_edge_edited(has_edge_after(h, edits.drop_last(), s, sym), edits.last(), s, sym)
    }
}

/// Over any run of edits: the states, their metas (`get_status`), the
/// accepting states, the edges (`find_next`) and their targets are those
/// the edits gave, in order; the start state stays; and nothing is ever
/// taken away: a state stays a state (`exist`), an accepting state stays
/// accepting, and an edge stays with all its targets.
pub proof fn lemma_nfa_edits(ns: Seq<NFA>, edits: Seq<NfaEdit>)
    requires
        ns.len() == edits.len() + 1,
        forall|i: int| 0 <= i < edits.len() ==> nfa_edited(#[trigger] ns[i], edits[i], ns[i + 1]),
    ensures
        ns.last().init() == ns[0].init(),
        ns.last().states() == states_after(ns[0].states(), edits),
        ns.last().terminated() == terminated_after(ns[0].terminated(), edits),
        forall|s: StateID, sym: NFASymbol| #[trigger] ns.last().targets(s, sym) == targets_after(ns[0].targets(s, sym), edits, s, sym),
        forall|s: StateID, sym: NFASymbol| #[trigger] ns.last().has_edge(s, sym) == has_edge_after(ns[0].has_edge(s, sym), edits, s, sym),
        ns[0].states().dom().subset_of(ns.last().states().dom()),
        ns[0].terminated().subset_of(ns.last().terminated()),
        forall|s: StateID, sym: NFASymbol| #[trigger] ns[0].has_edge(s, sym) ==> ns.last().has_edge(s, sym),
        forall|s: StateID, sym: NFASymbol| #[trigger] ns[0].targets(s, sym).subset_of(ns.last().targets(s, sym)),
    decreases edits.len(),
{
    if edits.len() > 0 {
        let k = edits.len() - 1;
        let front = ns.drop_last();
        assert forall|i: int| 0 <= i < k implies nfa_edited(#[trigger] front[i], edits.drop_last()[i], front[i + 1]) by {
            assert(nfa_edited(ns[i], edits[i], ns[i + 1]));
        }
        lemma_nfa_edits(front, edits.drop_last());
        let prev = ns[k];
        let last = ns[k + 1];
        assert(front.last() == prev);
        assert(nfa_edited(prev, edits[k], last));
        assert(ns[0].states().dom().subset_of(last.states().dom())) by {
            assert forall|x: StateID| ns[0].states().dom().contains(x) implies last.states().dom().contains(x) by {
                assert(prev.states().dom().contains(x));
            }
        }
        assert(ns[0].terminated().subset_of(last.terminated())) by {
            assert forall|x: StateID| ns[0].terminated().contains(x) implies last.terminated().contains(x) by {
                assert(prev.terminated().contains(x));
            }
        }
        assert forall|s: StateID, sym: NFASymbol| #[trigger] ns[0].targets(s, sym).subset_of(last.targets(s, sym)) by {
            assert(ns[0].targets(s, sym).subset_of(prev.targets(s, sym)));
            assert(last.targets(s, sym) == targets_edited(prev.targets(s, sym), edits[k], s, sym));
        }
        assert forall|s: StateID, sym: NFASymbol| #[trigger] ns[0].has_edge(s, sym) implies last.has_edge(s, sym) by {
            assert(prev.has_edge(s, sym));
            assert(last.has_edge(s, sym) == has_edge_edited(prev.has_edge(s, sym), edits[k], s, sym));
        }
        assert forall|s: StateID, sym: NFASymbol| #[trigger] last.targets(s, sym) == targets_after(ns[0].targets(s, sym), edits, s, sym) by {
            assert(prev.targets(s, sym) == targets_after(ns[0].targets(s, sym), edits.drop_last(), s, sym));
        }
        assert forall|s: StateID, sym: NFASymbol| #[trigger] last.has_edge(s, sym) == has_edge_after(ns[0].has_edge(s, sym), edits, s, sym) by {
            assert(prev.has_edge(s, sym) == has_edge_after(ns[0].has_edge(s, sym), edits.drop_last(), s, sym));
        }
    }
}

} // verus!
