//! The symbol table: nested scopes, each mapping names to values, searched
//! from the current scope outwards.
//!
//! Scopes are kept in one list and refer to their enclosing scope by its
//! place in the list; the first is the global scope.
use crate::err::parser_error::ParserError;
use crate::types::span::Span;
use indexmap::IndexMap;
use std::rc::Rc;
use vstd::prelude::*;

verus! {

/// What the symbol table records of a name.
#[derive(Debug, Clone, PartialEq, Eq, Structural)]
pub struct Symbol {}

#[verifier::external_type_specification]
#[verifier::external_body]
#[verifier::reject_recursive_types(K)]
#[verifier::reject_recursive_types(V)]
#[verifier::reject_recursive_types(S)]
pub struct ExIndexMap<K, V, S>(IndexMap<K, V, S>);

/// The index of a scope: each name with the place of its value.
pub type NameIndex = IndexMap<String, usize>;

/// The entries of a scope's index: each name with the place of its value.
pub uninterp spec fn index_entries(m: NameIndex) -> Map<Seq<char>, usize>;

/// `IndexMap::new`: an empty index.
#[verifier::external_body]
fn index_new() -> (r: NameIndex)
    ensures
        index_entries(r) =~= Map::empty(),
{
    IndexMap::new()
}

/// `IndexMap::contains_key`: whether `name` has an entry.
#[verifier::external_body]
fn index_contains(m: &NameIndex, name: &str) -> (r: bool)
    ensures
        r == index_entries(*m).contains_key(name@),
{
    m.contains_key(name)
}

/// `IndexMap::insert`: gives `name` the entry `place`, replacing any it had.
#[verifier::external_body]
fn index_insert(m: &mut NameIndex, name: String, place: usize)
    ensures
        index_entries(*final(m)) == index_entries(*old(m)).insert(name@, place),
{
    m.insert(name, place);
}

/// `IndexMap::get`: the entry of `name`, if it has one.
#[verifier::external_body]
fn index_get(m: &NameIndex, name: &str) -> (r: Option<usize>)
    ensures
        r == (if index_entries(*m).contains_key(name@) {
            Some(index_entries(*m)[name@])
        } else {
            None
        }),
{
    m.get(name).copied()
}

/// `Rc::clone`: another pointer to the same value.
#[verifier::external_body]
fn rc_share<V>(rc: &Rc<V>) -> (r: Rc<V>)
    ensures
        *r == **rc,
{
    Rc::clone(rc)
}

/// `str::to_string`.
#[verifier::external_body]
fn str_to_string(s: &str) -> (r: String)
    ensures
        r@ == s@,
{
    s.to_string()
}

/// One scope: its names, each with the place of its value, the values, and
/// the place of the enclosing scope in the symbol table.
pub struct Scope<V> {
    table: NameIndex,
    values: Vec<Rc<V>>,
    parent: Option<usize>,
}

impl<V> Scope<V> {
    /// The scope's own names and their values.
    pub closed spec fn symbols(&self) -> Map<Seq<char>, V> {
        Map::new(
            |n: Seq<char>| index_entries(self.table).contains_key(n),
            |n: Seq<char>| *self.values[index_entries(self.table)[n] as int],
        )
    }

    /// The place of the enclosing scope, if any.
    pub closed spec fn parent_of(&self) -> Option<usize> {
        self.parent
    }

    /// Every entry names a value of the scope.
    pub closed spec fn wf(&self) -> bool {
        forall|n: Seq<char>|
            #[trigger] index_entries(self.table).contains_key(n) ==> index_entries(self.table)[n] < self.values.len()
    }

    /// An empty scope inside the scope at place `parent`, if any.
    fn new(parent: Option<usize>) -> (r: Self)
        ensures
            r.wf(),
            r.symbols() == Map::<Seq<char>, V>::empty(),
            r.parent_of() == parent,
    {
        let r = Self { table: index_new(), values: Vec::new(), parent };
        assert(r.symbols() =~= Map::<Seq<char>, V>::empty());
        r
    }

    /// Defines `name` as `v` in this scope; a name the scope already has is
    /// refused with a duplicate-definition error, and nothing changes.
    pub fn insert(&mut self, name: &str, v: V) -> (r: Result<(), ParserError>)
        requires
            old(self).wf(),
        ensures
            final(self).wf(),
            final(self).parent_of() == old(self).parent_of(),
            r is Err <==> old(self).symbols().contains_key(name@),
            r is Ok ==> final(self).symbols() == old(self).symbols().insert(name@, v),
            r is Err ==> final(self).symbols() == old(self).symbols() && is_duplicate_error(r->Err_0, name@),
    {
        if index_contains(&self.table, name) {
            let mut msg = String::from_str("Duplicate Define ");
            msg.append(name);
            proof {
                reveal_strlit("Duplicate Define ");
            }
            return Err(ParserError { span: Span { start: 0, end: 0 }, name: String::new(), msg });
        }
        let ghost before = *self;
        let place = self.values.len();
        self.values.push(Rc::new(v));
        index_insert(&mut self.table, str_to_string(name), place);
        proof {
            assert forall|n: Seq<char>| #[trigger] index_entries(self.table).contains_key(n) implies index_entries(
                self.table,
            )[n] < self.values.len() by {
                if n != name@ {
                    assert(index_entries(before.table).contains_key(n));
                }
            }
            assert forall|n: Seq<char>| index_entries(before.table).contains_key(n) implies self.values[index_entries(
                self.table,
            )[n] as int] == before.values[index_entries(before.table)[n] as int] by {
                assert(n != name@);
            }
            assert(self.symbols() =~= before.symbols().insert(name@, v));
        }
        Ok(())
    }

    /// The value of `name` in this scope's own names, if it has it; the
    /// table's `lookup_from` goes on to the enclosing scopes.
    pub fn lookup(&self, name: &str) -> (r: Option<Rc<V>>)
        requires
            self.wf(),
        ensures
            match r {
                Some(x) => self.symbols().contains_key(name@) && *x == self.symbols()[name@],
                None => !self.symbols().contains_key(name@),
            },
    {
        match index_get(&self.table, name) {
            Some(place) => Some(rc_share(&self.values[place])),
            None => None,
        }
    }
}

/// `e` is the duplicate-definition error for `name`: at the start of the
/// text, in no rule, with the message `Duplicate Define ` and the name.
pub open spec fn is_duplicate_error(e: ParserError, name: Seq<char>) -> bool {
    &&& e.span == (Span { start: 0, end: 0 })
    &&& e.name@ == Seq::<char>::empty()
    &&& e.msg@ == "Duplicate Define "@ + name
}

/// The symbol table.
///
/// - `scopes`: every scope entered so far, the global one first
/// - `global`: the place of the global scope
/// - `current`: the place of the current scope
/// - `stack`: the places of the scopes entered and not yet left
pub struct SymbolTable<V> {
    scopes: Vec<Scope<V>>,
    global: usize,
    current: usize,
    stack: Vec<usize>,
}

impl<V> SymbolTable<V> {
    /// Number of scopes entered so far, the global one included.
    pub closed spec fn scope_count(&self) -> nat {
        self.scopes@.len()
    }

    /// The names and values of the scope at place `id`.
    pub closed spec fn names(&self, id: int) -> Map<Seq<char>, V> {
        self.scopes[id].symbols()
    }

    /// The place of the scope enclosing the scope at place `id`, if any.
    pub closed spec fn parent(&self, id: int) -> Option<usize> {
        self.scopes[id].parent_of()
    }

    /// The place of the current scope.
    pub closed spec fn current(&self) -> int {
        self.current as int
    }

    /// The places of the scopes entered and not yet left, outermost first.
    pub closed spec fn stack(&self) -> Seq<usize> {
        self.stack@
    }

    /// The value `name` has seen from the scope at place `id`: its own if
    /// it has one, else the one seen from the enclosing scope.
    pub open spec fn resolve(&self, id: int, name: Seq<char>) -> Option<V>
        decreases id,
    {
        if !(0 <= id < self.scope_count()) {
            None
        } else if self.names(id).contains_key(name) {
            Some(self.names(id)[name])
        } else {
            match self.parent(id) {
                Some(p) => if p < id {
                    self.resolve(p as int, name)
                } else {
                    None
                },
                None => None,
            }
        }
    }

    /// The table is consistent: the global scope is first and alone has no
    /// enclosing scope, every other scope is enclosed by one entered before
    /// it, the current scope and the stacked ones are scopes, and the stack
    /// starts with the global scope.
    pub closed spec fn wf(&self) -> bool {
        &&& self.scopes.len() > 0
        &&& self.global == 0
        &&& self.scopes[0].parent is None
        &&& forall|i: int| 0 <= i < self.scopes.len() ==> (#[trigger] self.scopes[i]).wf()
        &&& forall|i: int|
            0 < i < self.scopes.len() ==> (#[trigger] self.scopes[i]).parent is Some && self.scopes[i].parent.unwrap() < i
        &&& self.current < self.scopes.len()
        &&& self.stack.len() > 0
        &&& self.stack[0] == 0
        &&& forall|j: int| 0 <= j < self.stack.len() ==> #[trigger] self.stack[j] < self.scopes.len()
        &&& forall|j: int| 0 < j < self.stack.len() ==> #[trigger] self.stack[j] != 0
    }

    /// A consistent table has the global scope at the bottom of a nonempty
    /// stack, and its current and stacked scopes are scopes of it.
    pub proof fn lemma_wf_stack(&self)
        requires
            self.wf(),
        ensures
            self.stack().len() > 0,
            self.stack()[0] == 0,
            self.scope_count() > 0,
            0 <= self.current() < self.scope_count(),
            forall|j: int| 0 <= j < self.stack().len() ==> #[trigger] self.stack()[j] < self.scope_count(),
    {
    }

    /// A table with only the global scope, which is current.
    pub fn new() -> (r: Self)
        ensures
            r.wf(),
            r.scope_count() == 1,
            r.current() == 0,
            r.stack() == seq![0usize],
            r.names(0) == Map::<Seq<char>, V>::empty(),
            r.parent(0) is None,
    {
        let global = Scope::new(None);
        let mut scopes = Vec::new();
        scopes.push(global);
        let mut stack = Vec::new();
        stack.push(0);
        let r = Self { scopes, global: 0, current: 0, stack };
        assert(r.stack() =~= seq![0usize]);
        r
    }

    /// Enters a new, empty scope inside the current one; it becomes
    /// current.
    pub fn enter_scope(&mut self)
        requires
            old(self).wf(),
            old(self).scope_count() < usize::MAX,
        ensures
            final(self).wf(),
            final(self).scope_count() == old(self).scope_count() + 1,
            final(self).current() == old(self).scope_count(),
            final(self).names(old(self).scope_count() as int) == Map::<Seq<char>, V>::empty(),
            final(self).parent(old(self).scope_count() as int) == Some(old(self).current() as usize),
            final(self).stack() == old(self).stack().push(old(self).scope_count() as usize),
            final(self).stack().len() > 1,
            forall|i: int|
                0 <= i < old(self).scope_count() ==> #[trigger] final(self).names(i) == old(self).names(i)
                    && final(self).parent(i) == old(self).parent(i),
    {
        let scope = Scope::new(Some(self.current));
        let id = self.scopes.len();
        self.scopes.push(scope);
        self.stack.push(id);
        self.current = id;
    }

    /// Leaves the innermost scope entered and not yet left, and returns its
    /// place; the scope enclosing it becomes current again, so its names are
    /// no longer seen. The global scope cannot be left.
    pub fn exit_scope(&mut self) -> (r: usize)
        requires
            old(self).wf(),
            old(self).stack().len() > 1,
        ensures
            final(self).wf(),
            r == old(self).stack().last(),
            final(self).stack() == old(self).stack().drop_last(),
            old(self).parent(r as int) is Some,
            final(self).current() == old(self).parent(r as int).unwrap(),
            final(self).scope_count() == old(self).scope_count(),
            forall|i: int|
                0 <= i < old(self).scope_count() ==> #[trigger] final(self).names(i) == old(self).names(i)
                    && final(self).parent(i) == old(self).parent(i),
    {
        let last_scope = self.stack.pop().unwrap();
        let enclosing = self.scopes[last_scope].parent.unwrap();
        self.current = enclosing;
        last_scope
    }

    /// Defines `name` as `v` in the current scope; a name the current scope
    /// already has is refused with a duplicate-definition error, and
    /// nothing changes.
    pub fn insert(&mut self, name: &str, v: V) -> (r: Result<(), ParserError>)
        requires
            old(self).wf(),
        ensures
            final(self).wf(),
            final(self).scope_count() == old(self).scope_count(),
            final(self).current() == old(self).current(),
            final(self).stack() == old(self).stack(),
            r is Err <==> old(self).names(old(self).current()).contains_key(name@),
            r is Ok ==> final(self).names(final(self).current()) == old(self).names(old(self).current()).insert(name@, v),
            r is Err ==> final(self).names(final(self).current()) == old(self).names(old(self).current())
                && is_duplicate_error(r->Err_0, name@),
            forall|i: int|
                0 <= i < old(self).scope_count() && i != old(self).current() ==> #[trigger] final(self).names(i)
                    == old(self).names(i),
            forall|i: int| 0 <= i < old(self).scope_count() ==> #[trigger] final(self).parent(i) == old(self).parent(i),
    {
        let cur = self.current;
        self.scopes[cur].insert(name, v)
    }

    /// The value `name` has seen from the current scope: searched in the
    /// current scope, then outwards.
    pub fn lookup(&self, name: &str) -> (r: Option<Rc<V>>)
        requires
            self.wf(),
        ensures
            match r {
                Some(x) => self.resolve(self.current(), name@) == Some(*x),
                None => self.resolve(self.current(), name@) is None,
            },
    {
        self.lookup_from(self.current, name)
    }

    /// The value `name` has in the global scope.
    pub fn lookup_global(&self, name: &str) -> (r: Option<Rc<V>>)
        requires
            self.wf(),
        ensures
            match r {
                Some(x) => self.names(0).contains_key(name@) && *x == self.names(0)[name@],
                None => !self.names(0).contains_key(name@),
            },
    {
        self.lookup_from(self.global, name)
    }

    /// The value `name` has seen from the scope at place `id`: searched in
    /// that scope, then outwards. With the place `exit_scope` returns, this
    /// looks names up from the scope just left.
    pub fn lookup_from(&self, id: usize, name: &str) -> (r: Option<Rc<V>>)
        requires
            self.wf(),
            id < self.scope_count(),
        ensures
            match r {
                Some(x) => self.resolve(id as int, name@) == Some(*x),
                None => self.resolve(id as int, name@) is None,
            },
        decreases id,
    {
        let scope = &self.scopes[id];
        match scope.lookup(name) {
            Some(x) => Some(x),
            None => match scope.parent {
                Some(p) => {
                    if p < id {
                        self.lookup_from(p, name)
                    } else {
                        None
                    }
                },
                None => None,
            },
        }
    }
}

/// What a definition in the current scope gives back: right after `name`
/// is defined as `v` in the current scope, looking `name` up from the
/// current scope finds `v`, whatever the enclosing scopes hold.
pub proof fn lemma_lookup_after_insert<V>(t: SymbolTable<V>, name: Seq<char>, v: V)
    requires
        t.wf(),
        t.names(t.current()).contains_key(name),
        t.names(t.current())[name] == v,
    ensures
        t.resolve(t.current(), name) == Some(v),
{
}

/// A name the current scope does not have is looked up in the enclosing
/// scope: an inner scope hides only the names it defines.
pub proof fn lemma_lookup_falls_back<V>(t: SymbolTable<V>, name: Seq<char>)
    requires
        t.wf(),
        !t.names(t.current()).contains_key(name),
        t.current() > 0,
    ensures
        t.resolve(t.current(), name) == t.resolve(t.parent(t.current()).unwrap() as int, name),
{
}

} // verus!
