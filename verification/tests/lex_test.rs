use ccfront::lex::dfa::DFA;
use ccfront::lex::nfa::{NFASymbol, NFA};
use ccfront::lex::state_id_factory::IncrementalStateIDFactory;
use ccfront::lex::types::StateMeta;
use ccfront::utils::unique_id_factory::UniqueIDFactory;
use std::collections::BTreeSet;

#[test]
fn test_dfa() {
    // 'a(ab|cd)ff*'

    let mut dfa = DFA::new(0, 6, 128); // ASCII 0-127
    dfa.add_transition((0, 'a' as usize, 5))
        .add_transition((5, 'a' as usize, 3))
        .add_transition((5, 'c' as usize, 4))
        .add_transition((3, 'b' as usize, 2))
        .add_transition((4, 'd' as usize, 2))
        .add_transition((2, 'f' as usize, 1))
        .add_transition((1, 'f' as usize, 1));

    dfa.get_meta_mut(1).terminate = true;

    let mut state = dfa.get_init_state();
    let match_str = "asabffffff";
    for c in match_str.chars() {
        let c = c as usize;

        state = match dfa.find_next(state, c) {
            Some(s) => s,
            None => {
                println!("Nope");
                break;
            }
        }
    }

    println!("{:?}", dfa.get_meta(state));
}

#[test]
fn test_nfa() {}

fn meta() -> StateMeta {
    StateMeta { id: None, name: None, priority: None, terminate: false }
}

/// The automaton of 'a(ab|cd)ff*' accepts a matching word and stops on
/// the first character that leaves the pattern.
#[test]
fn dfa_runs_pattern() {
    let mut dfa = DFA::new(0, 6, 128);
    dfa.add_transition((0, 'a' as usize, 5))
        .add_transition((5, 'a' as usize, 3))
        .add_transition((5, 'c' as usize, 4))
        .add_transition((3, 'b' as usize, 2))
        .add_transition((4, 'd' as usize, 2))
        .add_transition((2, 'f' as usize, 1))
        .add_transition((1, 'f' as usize, 1));
    dfa.get_meta_mut(1).terminate = true;

    let run = |word: &str| -> Option<usize> {
        let mut state = dfa.get_init_state();
        for c in word.chars() {
            state = dfa.find_next(state, c as usize)?;
        }
        Some(state)
    };
    let s = run("aabffff").unwrap();
    assert_eq!(s, 1);
    assert!(dfa.get_meta(s).terminate);
    assert_eq!(run("acdf"), Some(1));
    assert_eq!(run("acd"), Some(2));
    assert!(!dfa.get_meta(2).terminate);
    assert_eq!(run("asab"), None);
    assert_eq!(dfa.size(), 6);
    assert_eq!(dfa.get_stride(), 128);
    assert_eq!(dfa.get_symbols(5), vec!['a' as usize, 'c' as usize]);
    assert!(dfa.is_exist(3));
    assert_eq!(dfa.get_init_state(), 0);
}

/// A fresh automaton's states are all ordinary, non-accepting states.
#[test]
fn dfa_new_states_are_normal() {
    let dfa = DFA::new(2, 3, 4);
    for s in 0..3 {
        let m = dfa.get_meta(s);
        assert!(!m.terminate);
        assert_eq!(m.id, None);
        for c in 0..4 {
            assert_eq!(dfa.find_next(s, c), None);
        }
    }
    assert_eq!(dfa.get_init_state(), 2);
}

#[test]
fn nfa_edges_and_symbols() {
    let mut nfa = NFA::new(0);
    nfa.add_state(0, meta()).add_state(1, meta()).add_state(2, meta());
    nfa.add_edge(0, NFASymbol::ClassID(1), 1)
        .add_edge(0, NFASymbol::ClassID(1), 2)
        .add_edge(0, NFASymbol::Epsilon, 2)
        .add_edge(1, NFASymbol::ClassID(3), 2);
    nfa.set_terminate(2);

    let targets: Vec<usize> = nfa.find_next(0, NFASymbol::ClassID(1)).unwrap().iter().copied().collect();
    assert_eq!(targets, vec![1, 2]);
    assert!(nfa.find_next(0, NFASymbol::ClassID(3)).is_none());
    assert!(nfa.find_next(2, NFASymbol::Epsilon).is_none());
    let mut syms = nfa.get_symbols(0);
    syms.sort();
    assert_eq!(syms, vec![NFASymbol::Epsilon, NFASymbol::ClassID(1)]);
    assert!(nfa.get_status(2).terminate);
    assert!(!nfa.get_status(1).terminate);
    assert!(nfa.get_terminated_states().contains(&2));
    assert!(nfa.exist(1));
    assert!(!nfa.exist(7));
    let mut ids = nfa.get_status_ids();
    ids.sort();
    assert_eq!(ids, vec![0, 1, 2]);
    let all: BTreeSet<usize> = [0, 2].into_iter().collect();
    assert!(nfa.all_exists(&all));
    let some: BTreeSet<usize> = [0, 5].into_iter().collect();
    assert!(!nfa.all_exists(&some));
    nfa.get_status_mut(1).priority = Some(4);
    assert_eq!(nfa.get_status(1).priority, Some(4));
}

/// A clone moves every state by the new start state minus the old one,
/// and merging takes in every state, edge and accepting state.
#[test]
fn nfa_clone_and_merge() {
    let mut a = NFA::new(0);
    a.add_state(0, meta()).add_state(1, meta());
    a.add_edge(0, NFASymbol::ClassID(7), 1);
    a.set_terminate(1);

    let b = a.clone(10);
    assert_eq!(b.get_init_state(), 10);
    assert!(b.exist(10) && b.exist(11) && !b.exist(0));
    let t: Vec<usize> = b.find_next(10, NFASymbol::ClassID(7)).unwrap().iter().copied().collect();
    assert_eq!(t, vec![11]);
    assert!(b.get_terminated_states().contains(&11));

    let start = a.merge(b);
    assert_eq!(start, 10);
    assert_eq!(a.get_init_state(), 0);
    let mut ids = a.get_status_ids();
    ids.sort();
    assert_eq!(ids, vec![0, 1, 10, 11]);
    // each start state is accepting from the start
    let term: Vec<usize> = a.get_terminated_states().iter().copied().collect();
    assert_eq!(term, vec![0, 1, 10, 11]);

    let mut c = NFA::new(3);
    c.add_state(3, meta()).add_state(4, meta());
    c.add_edge(3, NFASymbol::Epsilon, 4);
    let moved = a.merge_offset(&c, 20);
    assert_eq!(moved, 20);
    let t: Vec<usize> = a.find_next(20, NFASymbol::Epsilon).unwrap().iter().copied().collect();
    assert_eq!(t, vec![21]);
    assert!(a.exist(21));
    let term: Vec<usize> = a.get_terminated_states().iter().copied().collect();
    assert_eq!(term, vec![0, 1, 10, 11, 20]);
}

/// A new automaton accepts at its start state; a state just added has no
/// symbols.
#[test]
fn nfa_new_accepts_at_start() {
    let mut n = NFA::new(4);
    let term: Vec<usize> = n.get_terminated_states().iter().copied().collect();
    assert_eq!(term, vec![4]);
    assert!(!n.exist(4));
    n.add_state(4, meta());
    assert!(n.get_symbols(4).is_empty());
}

#[test]
fn state_id_factory_counts_up() {
    let mut f = IncrementalStateIDFactory::new(5);
    assert_eq!(f.peek(), 5);
    assert_eq!(f.next_id(), 5);
    assert_eq!(f.next_id(), 6);
    f.skip_id(3);
    assert_eq!(f.next(), Some(10));
    assert_eq!(f.peek(), 11);
}

/// A transition added again for the same state and class replaces the
/// first one.
#[test]
fn dfa_transition_is_overwritten() {
    let mut dfa = DFA::new(0, 3, 4);
    dfa.add_transition((0, 1, 1)).add_transition((0, 1, 2));
    assert_eq!(dfa.find_next(0, 1), Some(2));
    assert_eq!(dfa.find_next(0, 2), None);
}

/// A state's meta is the last one given to it, else the default; the
/// states, accepting states and edges of an automaton only grow.
#[test]
fn edits_keep_the_last_meta_and_only_grow() {
    let mut d = DFA::new(0, 3, 2);
    assert!(!d.get_meta(1).terminate);
    d.add_state(1, StateMeta { id: Some(1), name: None, priority: None, terminate: false });
    d.get_meta_mut(1).terminate = true;
    d.add_transition((1, 0, 2));
    assert!(d.get_meta(1).terminate);
    assert_eq!(d.get_meta(1).id, Some(1));
    assert!(!d.get_meta(2).terminate);

    let mut n = NFA::new(0);
    n.add_state(0, meta()).add_state(1, meta());
    n.add_edge(0, NFASymbol::Epsilon, 1);
    n.set_terminate(1);
    n.get_status_mut(1).priority = Some(2);
    let mut m = NFA::new(5);
    m.add_state(5, meta());
    m.add_edge(5, NFASymbol::ClassID(1), 5);
    n.merge(m);
    assert!(n.exist(0) && n.exist(1) && n.exist(5));
    assert!(n.get_status(1).terminate && n.get_status(1).priority == Some(2));
    let term: Vec<usize> = n.get_terminated_states().iter().copied().collect();
    assert_eq!(term, vec![0, 1, 5]);
    let t: Vec<usize> = n.find_next(0, NFASymbol::Epsilon).unwrap().iter().copied().collect();
    assert_eq!(t, vec![1]);
    let t: Vec<usize> = n.find_next(5, NFASymbol::ClassID(1)).unwrap().iter().copied().collect();
    assert_eq!(t, vec![5]);
}
