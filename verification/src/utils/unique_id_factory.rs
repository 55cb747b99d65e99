use vstd::prelude::*;

verus! {

/// A source of ids that are never handed out twice.
pub trait UniqueIDFactory<T>: Sized {
    /// The id that the next call of `next_id` hands out.
    spec fn next_value(&self) -> T;

    /// Whether `cnt` more ids can still be handed out.
    spec fn has_room(&self, cnt: nat) -> bool;

    /// The id that the next call of `next_id` hands out, without taking it.
    fn peek(&self) -> (r: T)
        ensures
            r == self.next_value(),
    ;

    /// Hands out the next id.
    fn next_id(&mut self) -> (r: T)
        requires
            old(self).has_room(1),
        ensures
            r == old(self).next_value(),
    ;

    /// Skips `cnt` ids.
    fn skip_id(&mut self, cnt: usize)
        requires
            old(self).has_room(cnt as nat),
    ;
}

} // verus!
