use crate::lex::types::StateID;
use crate::utils::unique_id_factory::UniqueIDFactory;
use vstd::prelude::*;

verus! {

/// Hands out consecutive state ids, starting from a given one.
pub struct IncrementalStateIDFactory {
    counter: StateID,
}

impl IncrementalStateIDFactory {
    /// The id the factory hands out next.
    pub closed spec fn counter(&self) -> StateID {
        self.counter
    }

    /// A factory whose first id is `t`.
    pub fn new(t: StateID) -> (r: Self)
        ensures
            r.counter() == t,
    {
        Self { counter: t }
    }

    /// Hands out the next id, as an iterator would.
    pub fn next(&mut self) -> (r: Option<StateID>)
        requires
            old(self).counter() < usize::MAX,
        ensures
            r == Some(old(self).counter()),
            final(self).counter() == old(self).counter() + 1,
    {
        Some(self.next_id())
    }
}

impl UniqueIDFactory<StateID> for IncrementalStateIDFactory {
    open spec fn next_value(&self) -> StateID {
        self.counter()
    }

    open spec fn has_room(&self, cnt: nat) -> bool {
        self.counter() + cnt <= usize::MAX
    }

    fn peek(&self) -> (r: StateID) {
        self.counter
    }

    fn next_id(&mut self) -> (r: StateID)
        ensures
            final(self).counter() == old(self).counter() + 1,
    {
        let cp = self.counter;
        self.counter = self.counter + 1;
        cp
    }

    fn skip_id(&mut self, cnt: usize)
        ensures
            final(self).counter() == old(self).counter() + cnt,
    {
        self.counter = self.counter + cnt;
    }
}

} // verus!
