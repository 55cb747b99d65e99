use vstd::prelude::*;

verus! {

/// Identifier of an automaton state.
pub type StateID = usize;

/// Identifier of an input character class.
pub type ClassID = usize;

/// What is known of one state of an automaton.
///
/// - `id`: the token that an accepting state stands for
/// - `name`: the name of that token
/// - `priority`: decides between accepting states that match the same text
/// - `terminate`: whether the state accepts
#[derive(Debug, Clone)]
pub struct StateMeta {
    pub id: Option<StateID>,
    pub name: Option<String>,
    pub priority: Option<usize>,
    pub terminate: bool,
}

impl StateMeta {
    /// The meta of an ordinary, non-accepting state with nothing attached.
    pub open spec fn spec_default() -> StateMeta {
        StateMeta { id: None, name: None, priority: None, terminate: false }
    }

    /// An exact copy of this meta (same id, name, priority and flag).
    pub fn duplicate(&self) -> (r: StateMeta)
        ensures
            r == *self,
    {
        let name = match &self.name {
            None => None,
            Some(s) => Some(s.clone()),
        };
        StateMeta { id: self.id, name, priority: self.priority, terminate: self.terminate }
    }
}

impl Default for StateMeta {
    fn default() -> (r: StateMeta)
        ensures
            r == StateMeta::spec_default(),
    {
        StateMeta { id: None, priority: None, name: None, terminate: false }
    }
}

} // verus!
