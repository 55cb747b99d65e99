//! Ordered copies of hash maps and hash sets.
use std::collections::{BTreeMap, BTreeSet, HashMap, HashSet};
use std::hash::Hash;
use vstd::prelude::*;
use vstd::std_specs::hash::{obeys_key_model, spec_hash_keys_iter, spec_hash_map_iter};
use vstd::laws_cmp::obeys_cmp;
use vstd::std_specs::iter::IteratorSpec;

verus! {

/// The same map, ordered by key.
pub fn to_btree_map<K: Ord + Hash + Eq + Copy, V: Copy>(map: HashMap<K, V>) -> (r: BTreeMap<K, V>)
    requires
        obeys_key_model::<K>(),
        obeys_cmp::<K>(),
    ensures
        r@ == map@,
{
    let mut out: BTreeMap<K, V> = BTreeMap::new();
    let iter = map.iter();
    let ghost pairs = iter.remaining();
    for kv in it: iter
        invariant
            obeys_cmp::<K>(),
            it.seq() == pairs,
            pairs == spec_hash_map_iter(&map).remaining(),
            pairs.no_duplicates(),
            forall|k: K| #[trigger] out@.contains_key(k) <==> exists|j: int| 0 <= j < it.index() && *pairs[j].0 == k,
            forall|k: K| #[trigger] out@.contains_key(k) ==> map@.contains_key(k) && out@[k] == map@[k],
    {
        proof {
            assert(map@.contains_key(*kv.0) && map@[*kv.0] == *kv.1);
        }
        out.insert(*kv.0, *kv.1);
    }
    proof {
        assert forall|k: K| #[trigger] map@.contains_key(k) implies out@.contains_key(k) by {
            assert(pairs.contains((&k, &map@[k])));
            let j = choose|j: int| 0 <= j < pairs.len() && pairs[j] == (&k, &map@[k]);
            assert(*pairs[j].0 == k);
        }
        assert(out@ =~= map@);
    }
    out
}

/// The same set, ordered.
pub fn to_btree_set<K: Ord + Hash + Eq + Copy>(map: HashSet<K>) -> (r: BTreeSet<K>)
    requires
        obeys_key_model::<K>(),
        obeys_cmp::<K>(),
    ensures
        r@ == map@,
{
    let mut out: BTreeSet<K> = BTreeSet::new();
    let iter = map.iter();
    let ghost items = iter.remaining();
    for x in it: iter
        invariant
            obeys_cmp::<K>(),
            it.seq() == items,
            items == spec_hash_keys_iter(&map).remaining(),
            forall|k: K| #[trigger] out@.contains(k) <==> exists|j: int| 0 <= j < it.index() && *items[j] == k,
    {
        out.insert(*x);
    }
    proof {
        assert forall|k: K| #[trigger] map@.contains(k) <==> out@.contains(k) by {
            if map@.contains(k) {
                assert(items.unref().to_set().contains(k));
                let j = choose|j: int| 0 <= j < items.unref().len() && items.unref()[j] == k;
                assert(*items[j] == k);
            }
            if out@.contains(k) {
                let j = choose|j: int| 0 <= j < items.len() && *items[j] == k;
                assert(items.unref()[j] == k);
                assert(items.unref().contains(k));
            }
        }
        assert(out@ =~= map@);
    }
    out
}

} // verus!
