use crate::lex::types::StateID;
use crate::utils::unique_id_factory::UniqueIDFactory;
use vstd::prelude::*;

verus! {

/// Hands out consecutive ids, starting from a given one.
pub struct IncIDFactory {
    counter: usize,
}

impl IncIDFactory {
    /// The id the factory hands out next.
    pub closed spec fn counter(&self) -> usize {
        self.counter
    }

    /// A factory whose first id is `t`.
    pub fn new(t: StateID) -> (r: Self)
        ensures
            r.counter() == t,
    {
        Self { counter: t }
    }

    /// Hands out the next id, as an iterator would.
    pub fn next(&mut self) -> (r: Option<usize>)
        requires
            old(self).counter() < usize::MAX,
        ensures
            r == Some(old(self).counter()),
            final(self).counter() == old(self).counter() + 1,
    {
        Some(self.next_id())
    }
}

impl UniqueIDFactory<usize> for IncIDFactory {
    open spec fn next_value(&self) -> usize {
        self.counter()
    }

    open spec fn has_room(&self, cnt: nat) -> bool {
        self.counter() + cnt <= usize::MAX
    }

    fn peek(&self) -> (r: usize) {
        self.counter
    }

    fn next_id(&mut self) -> (r: usize)
        ensures
            final(self).counter() == old(self).counter() + 1,
    {
        let cp = self.counter;
        self.counter = self.counter + 1;
        cp
    }

    fn skip_id(&mut self, cnt: usize)
        ensures
            final(self).counter() == old(self).counter() + cnt,
    {
        self.counter = self.counter + cnt;
    }
}

/// Two ids that `next_id` hands out one after the other differ: the second
/// is the first plus one. (`f` goes to `g` handing out `a`, then `g` goes
/// to `h` handing out `b`.)
pub proof fn lemma_consecutive_ids_differ(f: IncIDFactory, g: IncIDFactory, h: IncIDFactory, a: usize, b: usize)
    requires
        a == f.next_value(),
        g.counter() == f.counter() + 1,
        b == g.next_value(),
        h.counter() == g.counter() + 1,
    ensures
        b == a + 1,
        a != b,
{
}

} // verus!
