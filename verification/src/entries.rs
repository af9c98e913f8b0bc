//! Looking keys up in lists of key/value entries.
use vstd::prelude::*;

verus! {

/// The value of the first entry with the given key, if any.
pub open spec fn lookup<V>(entries: Seq<(Seq<char>, V)>, key: Seq<char>) -> Option<V>
    decreases entries.len(),
{
    if entries.len() == 0 {
        None
    } else if entries[0].0 == key {
        Some(entries[0].1)
    } else {
        lookup(entries.drop_first(), key)
    }
}

/// Looking a key up in two lists joined finds it in the first list when it
/// is there, and in the second otherwise.
pub proof fn lemma_lookup_concat<V>(a: Seq<(Seq<char>, V)>, b: Seq<(Seq<char>, V)>, key: Seq<char>)
    ensures
        lookup(a + b, key) == match lookup(a, key) {
            Some(v) => Some(v),
            None => lookup(b, key),
        },
    decreases a.len(),
{
    if a.len() == 0 {
        assert(a + b =~= b);
    } else {
        assert((a + b).drop_first() =~= a.drop_first() + b);
        lemma_lookup_concat(a.drop_first(), b, key);
    }
}

/// A list of at most one entry holds the key exactly when its one entry has it.
pub proof fn lemma_lookup_single<V>(k: Seq<char>, v: V, key: Seq<char>)
    ensures
        lookup(seq![(k, v)], key) == if k == key {
            Some(v)
        } else {
            None::<V>
        },
        lookup(Seq::<(Seq<char>, V)>::empty(), key) == None::<V>,
{
    assert(seq![(k, v)].drop_first() =~= Seq::<(Seq<char>, V)>::empty());
}

} // verus!
