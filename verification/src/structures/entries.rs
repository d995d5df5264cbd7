//! Keyed entries in a sequence: what a store of unique keys is made of.
//!
//! A store keeps its entries in some order and no key twice. What it maps a
//! key to is the value of the one entry with that key.

use vstd::prelude::*;

verus! {

/// Whether no key occurs twice among the entries.
pub open spec fn distinct_keys<V>(entries: Seq<(Seq<char>, V)>) -> bool {
    forall|i: int, j: int|
        0 <= i < entries.len() && 0 <= j < entries.len() && i != j ==> entries[i].0 != entries[j].0
}

/// Whether `at` is the place of `key` among the entries.
pub open spec fn is_place_of<V>(entries: Seq<(Seq<char>, V)>, key: Seq<char>, at: int) -> bool {
    0 <= at < entries.len() && entries[at].0 == key
}

/// Whether some entry has the key.
pub open spec fn has_key<V>(entries: Seq<(Seq<char>, V)>, key: Seq<char>) -> bool {
    exists|at: int| is_place_of(entries, key, at)
}

/// The place of the key among the entries, where some entry has it.
pub open spec fn place_of<V>(entries: Seq<(Seq<char>, V)>, key: Seq<char>) -> int {
    choose|at: int| is_place_of(entries, key, at)
}

/// The mapping that the entries stand for.
pub open spec fn mapping<V>(entries: Seq<(Seq<char>, V)>) -> Map<Seq<char>, V> {
    Map::new(|key: Seq<char>| has_key(entries, key), |key: Seq<char>| entries[place_of(entries, key)].1)
}

/// The entries after a value is set under a key: the value takes the place
/// that the key has, or a new last place where it has none.
pub open spec fn entries_after_set<V>(entries: Seq<(Seq<char>, V)>, key: Seq<char>, value: V) -> Seq<(Seq<char>, V)> {
    if has_key(entries, key) {
        entries.update(place_of(entries, key), (key, value))
    } else {
        entries.push((key, value))
    }
}

/// The entries after a key is removed: the others, in the order they had.
pub open spec fn entries_after_remove<V>(entries: Seq<(Seq<char>, V)>, key: Seq<char>) -> Seq<(Seq<char>, V)> {
    if has_key(entries, key) {
        entries.remove(place_of(entries, key))
    } else {
        entries
    }
}

/// The value under a key, if the key has one.
pub open spec fn lookup<V>(store: Map<Seq<char>, V>, key: Seq<char>) -> Option<V> {
    if store.contains_key(key) {
        Some(store[key])
    } else {
        None
    }
}

/// Setting a value keeps the keys distinct and changes the mapping at that
/// key alone.
pub proof fn lemma_set<V>(entries: Seq<(Seq<char>, V)>, key: Seq<char>, value: V)
    requires
        distinct_keys(entries),
    ensures
        distinct_keys(entries_after_set(entries, key, value)),
        mapping(entries_after_set(entries, key, value)) == mapping(entries).insert(key, value),
{
    let after = entries_after_set(entries, key, value);
    if has_key(entries, key) {
        let at = place_of(entries, key);
        assert(is_place_of(after, key, at));
        assert forall|k: Seq<char>| has_key(after, k) <==> (k == key || has_key(entries, k)) by {
            if has_key(after, k) {
                let i = place_of(after, k);
                assert(is_place_of(after, k, i));
                if i != at {
                    assert(is_place_of(entries, k, i));
                }
            }
            if has_key(entries, k) {
                let i = place_of(entries, k);
                assert(is_place_of(after, k, i));
            }
        }
        assert forall|k: Seq<char>| has_key(after, k) implies #[trigger] mapping(after)[k] == mapping(
            entries,
        ).insert(key, value)[k] by {
            let i = place_of(after, k);
            assert(is_place_of(after, k, i));
            if k == key {
                assert(i == at);
            } else {
                assert(is_place_of(entries, k, i));
                lemma_place_is_unique(entries, k, i);
            }
        }
    } else {
        let at = entries.len() as int;
        assert(is_place_of(after, key, at));
        assert forall|i: int, j: int|
            0 <= i < after.len() && 0 <= j < after.len() && i != j implies after[i].0 != after[j].0 by {
            if i < at && j == at {
                assert(is_place_of(entries, after[i].0, i));
            }
            if j < at && i == at {
                assert(is_place_of(entries, after[j].0, j));
            }
        }
        assert forall|k: Seq<char>| has_key(after, k) <==> (k == key || has_key(entries, k)) by {
            if has_key(after, k) {
                let i = place_of(after, k);
                assert(is_place_of(after, k, i));
                if i != at {
                    assert(is_place_of(entries, k, i));
                }
            }
            if has_key(entries, k) {
                let i = place_of(entries, k);
                assert(is_place_of(after, k, i));
            }
        }
        assert forall|k: Seq<char>| has_key(after, k) implies #[trigger] mapping(after)[k] == mapping(
            entries,
        ).insert(key, value)[k] by {
            let i = place_of(after, k);
            assert(is_place_of(after, k, i));
            if k == key {
                assert(i == at);
            } else {
                assert(is_place_of(entries, k, i));
                lemma_place_is_unique(entries, k, i);
            }
        }
    }
    assert(mapping(after) =~= mapping(entries).insert(key, value));
}

/// Removing a key keeps the keys distinct and takes that key alone out of
/// the mapping.
pub proof fn lemma_remove<V>(entries: Seq<(Seq<char>, V)>, key: Seq<char>)
    requires
        distinct_keys(entries),
    ensures
        distinct_keys(entries_after_remove(entries, key)),
        mapping(entries_after_remove(entries, key)) == mapping(entries).remove(key),
{
    let after = entries_after_remove(entries, key);
    if has_key(entries, key) {
        let at = place_of(entries, key);
        assert(is_place_of(entries, key, at));
        assert forall|i: int| 0 <= i < after.len() implies #[trigger] after[i] == entries[if i < at {
            i
        } else {
            i + 1
        }] by {}
        assert forall|k: Seq<char>| has_key(after, k) <==> (k != key && has_key(entries, k)) by {
            if has_key(after, k) {
                let i = place_of(after, k);
                assert(is_place_of(after, k, i));
                let j = if i < at { i } else { i + 1 };
                assert(is_place_of(entries, k, j));
            }
            if k != key && has_key(entries, k) {
                let j = place_of(entries, k);
                assert(is_place_of(entries, k, j));
                let i = if j < at { j } else { j - 1 };
                assert(is_place_of(after, k, i));
            }
        }
        assert forall|k: Seq<char>| has_key(after, k) implies #[trigger] mapping(after)[k] == mapping(
            entries,
        )[k] by {
            let i = place_of(after, k);
            assert(is_place_of(after, k, i));
            let j = if i < at { i } else { i + 1 };
            assert(is_place_of(entries, k, j));
            lemma_place_is_unique(entries, k, j);
        }
    } else {
    }
    assert(mapping(after) =~= mapping(entries).remove(key));
}

/// Among entries with distinct keys a key has one place.
pub proof fn lemma_place_is_unique<V>(entries: Seq<(Seq<char>, V)>, key: Seq<char>, at: int)
    requires
        distinct_keys(entries),
        is_place_of(entries, key, at),
    ensures
        has_key(entries, key),
        place_of(entries, key) == at,
        mapping(entries).contains_key(key),
        mapping(entries)[key] == entries[at].1,
{
}

} // verus!
