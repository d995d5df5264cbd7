//! A store of values under string keys.

use vstd::prelude::*;
use crate::structures::entries::{
    distinct_keys, entries_after_remove, entries_after_set, has_key, is_place_of, lemma_place_is_unique,
    lemma_remove, lemma_set, lookup, mapping, place_of,
};
use crate::text::str_eq;

verus! {

/// The content of stored entries.
pub open spec fn content_of<V: View>(stored: Seq<(String, V)>) -> Seq<(Seq<char>, V::V)> {
    Seq::new(stored.len(), |i: int| (stored[i].0@, stored[i].1@))
}

/// Whether the predicate can be asked about the entry at a place.
pub open spec fn can_judge<V, Predicate: Fn(&(&String, &V)) -> bool>(
    predicate: Predicate,
    stored: Seq<(String, V)>,
    at: int,
) -> bool {
    call_requires(predicate, (&(&stored[at].0, &stored[at].1),))
}

/// Whether `verdict` is what the predicate can say of the entry at a place.
pub open spec fn verdict_at<V, Predicate: Fn(&(&String, &V)) -> bool>(
    predicate: Predicate,
    stored: Seq<(String, V)>,
    at: int,
    verdict: bool,
) -> bool {
    call_ensures(predicate, (&(&stored[at].0, &stored[at].1),), verdict)
}

/// The entries whose verdict is `true`, in the order they have.
pub open spec fn accepted<V>(stored: Seq<(String, V)>, verdicts: Seq<bool>) -> Seq<
    (String, V),
>
    recommends
        verdicts.len() == stored.len(),
    decreases stored.len(),
{
    if stored.len() == 0 {
        Seq::empty()
    } else {
        let earlier = accepted(stored.drop_last(), verdicts.drop_last());
        if verdicts.last() {
            earlier.push(stored.last())
        } else {
            earlier
        }
    }
}

/// The keys and values that references point to.
pub open spec fn referents<V>(entries: Seq<(&String, &V)>) -> Seq<(String, V)> {
    Seq::new(entries.len(), |i: int| (*entries[i].0, *entries[i].1))
}

/// Whether the mapper can be asked about the entry at a place.
pub open spec fn can_map<V, Mapper: Fn((&String, &V)) -> Option<V>>(
    mapper: Mapper,
    stored: Seq<(String, V)>,
    at: int,
) -> bool {
    call_requires(mapper, ((&stored[at].0, &stored[at].1),))
}

/// Whether `outcome` is what the mapper can make of the entry at a place.
pub open spec fn outcome_at<V, Mapper: Fn((&String, &V)) -> Option<V>>(
    mapper: Mapper,
    stored: Seq<(String, V)>,
    at: int,
    outcome: Option<V>,
) -> bool {
    call_ensures(mapper, ((&stored[at].0, &stored[at].1),), outcome)
}

/// The values among the outcomes, in the order they have.
pub open spec fn produced<V>(outcomes: Seq<Option<V>>) -> Seq<V>
    decreases outcomes.len(),
{
    if outcomes.len() == 0 {
        Seq::empty()
    } else {
        let earlier = produced(outcomes.drop_last());
        match outcomes.last() {
            Some(value) => earlier.push(value),
            None => earlier,
        }
    }
}

/// The entries with each value replaced by the one given for its place.
pub open spec fn with_values<V>(stored: Seq<(String, V)>, values: Seq<V>) -> Seq<
    (String, V),
>
    recommends
        values.len() == stored.len(),
{
    Seq::new(stored.len(), |i: int| (stored[i].0, values[i]))
}

/// A store of values under string keys. A key has at most one value, and
/// the last value set under a key is the one it has.
pub struct Store<V: View> {
    inner: Vec<(String, V)>,
}

impl<V: View> View for Store<V> {
    type V = Map<Seq<char>, V::V>;

    /// The value of every key that has one.
    open spec fn view(&self) -> Map<Seq<char>, V::V> {
        mapping(self.entries())
    }
}

impl<V: View> Default for Store<V> {
    /// The empty store.
    fn default() -> (store: Self)
        ensures
            store@ == Map::<Seq<char>, V::V>::empty(),
            store.entries() == Seq::<(Seq<char>, V::V)>::empty(),
    {
        let store = Store { inner: Vec::new() };
        assert(store.entries() =~= Seq::<(Seq<char>, V::V)>::empty());
        assert(store@ =~= Map::<Seq<char>, V::V>::empty());
        store
    }
}

impl<V: View> Store<V> {
    /// The entries in the order in which the store walks them. The order is
    /// that of this snapshot only: nothing is promised of it across changes
    /// beyond what each operation states.
    pub open spec fn entries(&self) -> Seq<(Seq<char>, V::V)> {
        content_of(self.stored())
    }

    /// The stored keys and values themselves, in the same order.
    pub closed spec fn stored(&self) -> Seq<(String, V)> {
        self.inner@
    }

    #[verifier::type_invariant]
    spec fn keys_are_distinct(&self) -> bool {
        distinct_keys(self.entries())
    }

    /// Puts other entries in the place of the stored ones, which it returns.
    fn exchange(&mut self, entries: Vec<(String, V)>) -> (previous: Vec<(String, V)>)
        requires
            distinct_keys(content_of(entries@)),
        ensures
            final(self).inner == entries,
            previous == old(self).inner,
    {
        let mut entries = entries;
        std::mem::swap(&mut self.inner, &mut entries);
        entries
    }

    /// The place of a key in the store, if it has one.
    fn position(&self, key: &str) -> (found: Option<usize>)
        ensures
            distinct_keys(self.entries()),
            match found {
                Some(at) => is_place_of(self.entries(), key@, at as int),
                None => !has_key(self.entries(), key@),
            },
    {
        proof {
            use_type_invariant(self);
        }
        let mut i: usize = 0;
        while i < self.inner.len()
            invariant
                i <= self.inner@.len(),
                distinct_keys(self.entries()),
                forall|j: int| 0 <= j < i ==> self.entries()[j].0 != key@,
            decreases self.inner@.len() - i,
        {
            if str_eq(self.inner[i].0.as_str(), key) {
                return Some(i);
            }
            i += 1;
        }
        None
    }

    /// The value under a key, if the key has one.
    pub fn get(&self, key: &str) -> (found: Option<&V>)
        ensures
            match found {
                Some(value) => lookup(self@, key@) == Some(value@),
                None => lookup(self@, key@) is None,
            },
    {
        match self.position(key) {
            Some(at) => {
                proof {
                    lemma_place_is_unique(self.entries(), key@, at as int);
                }
                Some(&self.inner[at].1)
            },
            None => None,
        }
    }

    /// Sets the value under a key, in place of the one the key had, and
    /// hands the store back.
    pub fn set(&mut self, key: &str, value: V) -> (store: &Self)
        ensures
            final(self)@ == old(self)@.insert(key@, value@),
            final(self).entries() == entries_after_set(old(self).entries(), key@, value@),
            *store == *final(self),
    {
        let ghost before = self.entries();
        let ghost content = value@;
        let found = self.position(key);
        proof {
            lemma_set(before, key@, content);
        }
        match found {
            Some(at) => {
                proof {
                    lemma_place_is_unique(before, key@, at as int);
                }
                let mut stored = self.exchange(Vec::new());
                stored[at].1 = value;
                assert(content_of(stored@) =~= entries_after_set(before, key@, content));
                self.exchange(stored);
            },
            None => {
                let mut stored = self.exchange(Vec::new());
                stored.push((key.to_owned(), value));
                assert(content_of(stored@) =~= entries_after_set(before, key@, content));
                self.exchange(stored);
            },
        }
        self
    }

    /// Takes a key out of the store and returns the value it had. That the
    /// key had none is no error: nothing changes and nothing is returned.
    pub fn remove(&mut self, key: &str) -> (removed: Option<V>)
        ensures
            final(self)@ == old(self)@.remove(key@),
            final(self).entries() == entries_after_remove(old(self).entries(), key@),
            match removed {
                Some(value) => lookup(old(self)@, key@) == Some(value@),
                None => lookup(old(self)@, key@) is None,
            },
    {
        let ghost before = self.entries();
        let found = self.position(key);
        proof {
            lemma_remove(before, key@);
        }
        match found {
            Some(at) => {
                proof {
                    lemma_place_is_unique(before, key@, at as int);
                }
                let mut stored = self.exchange(Vec::new());
                let entry = stored.remove(at);
                assert(content_of(stored@) =~= entries_after_remove(before, key@));
                self.exchange(stored);
                Some(entry.1)
            },
            None => None,
        }
    }

    /// Takes every key out of the store.
    pub fn clear(&mut self)
        ensures
            final(self)@ == Map::<Seq<char>, V::V>::empty(),
            final(self).entries() == Seq::<(Seq<char>, V::V)>::empty(),
    {
        self.exchange(Vec::new());
        assert(self.entries() =~= Seq::<(Seq<char>, V::V)>::empty());
        assert(self@ =~= Map::<Seq<char>, V::V>::empty());
    }

    /// The number of keys.
    pub fn len(&self) -> (count: usize)
        ensures
            count == self.stored().len(),
    {
        self.inner.len()
    }

    /// The keys, in the order of the entries.
    pub fn keys(&self) -> (keys: Vec<&String>)
        ensures
            keys@.len() == self.stored().len(),
            forall|at: int| 0 <= at < keys@.len() ==> *keys@[at] == self.stored()[at].0,
            distinct_keys(self.entries()),
    {
        proof {
            use_type_invariant(self);
        }
        let mut keys: Vec<&String> = Vec::new();
        let mut i: usize = 0;
        while i < self.inner.len()
            invariant
                i <= self.inner@.len(),
                keys@.len() == i,
                forall|at: int| 0 <= at < i ==> *keys@[at] == self.inner@[at].0,
            decreases self.inner@.len() - i,
        {
            keys.push(&self.inner[i].0);
            i += 1;
        }
        keys
    }

    /// The values, in the order of the entries.
    pub fn values(&self) -> (values: Vec<&V>)
        ensures
            values@.len() == self.stored().len(),
            forall|at: int| 0 <= at < values@.len() ==> *values@[at] == self.stored()[at].1,
    {
        let mut values: Vec<&V> = Vec::new();
        let mut i: usize = 0;
        while i < self.inner.len()
            invariant
                i <= self.inner@.len(),
                values@.len() == i,
                forall|at: int| 0 <= at < i ==> *values@[at] == self.inner@[at].1,
            decreases self.inner@.len() - i,
        {
            values.push(&self.inner[i].1);
            i += 1;
        }
        values
    }

    /// Puts in the place of each value what `change` makes of it. The keys
    /// and their order stay. `change` is asked once about each value, in the
    /// order of the entries.
    pub fn values_mut<Change>(&mut self, change: Change) where Change: Fn(V) -> V
        requires
            forall|at: int|
                0 <= at < old(self).stored().len() ==> call_requires(
                    change,
                    (#[trigger] old(self).stored()[at].1,),
                ),
        ensures
            exists|values: Seq<V>|
                {
                    &&& values.len() == old(self).stored().len()
                    &&& forall|at: int|
                        0 <= at < values.len() ==> call_ensures(
                            change,
                            (old(self).stored()[at].1,),
                            #[trigger] values[at],
                        )
                    &&& final(self).stored() == with_values(old(self).stored(), values)
                },
    {
        proof {
            use_type_invariant(&*self);
        }
        let ghost before = self.stored();
        let mut stored = self.exchange(Vec::new());
        let mut waiting: Vec<(String, V)> = Vec::new();
        while stored.len() > 0
            invariant
                stored@.len() + waiting@.len() == before.len(),
                forall|at: int| 0 <= at < stored@.len() ==> stored@[at] == before[at],
                forall|at: int| 0 <= at < waiting@.len() ==> waiting@[at] == before[before.len() - 1 - at],
            decreases stored@.len(),
        {
            match stored.pop() {
                Some(entry) => {
                    waiting.push(entry);
                },
                None => {},
            }
        }
        let ghost mut values: Seq<V> = Seq::empty();
        while waiting.len() > 0
            invariant
                stored@.len() + waiting@.len() == before.len(),
                values.len() == stored@.len(),
                forall|at: int| 0 <= at < before.len() ==> call_requires(change, (#[trigger] before[at].1,)),
                forall|at: int| 0 <= at < waiting@.len() ==> waiting@[at] == before[before.len() - 1 - at],
                forall|at: int| 0 <= at < stored@.len() ==> stored@[at] == (before[at].0, values[at]),
                forall|at: int|
                    0 <= at < values.len() ==> call_ensures(change, (before[at].1,), #[trigger] values[at]),
            decreases waiting@.len(),
        {
            let ghost at = stored@.len() as int;
            match waiting.pop() {
                Some(entry) => {
                    assert(entry == before[at]);
                    assert(call_requires(change, (before[at].1,)));
                    let changed = change(entry.1);
                    proof {
                        values = values.push(changed);
                    }
                    stored.push((entry.0, changed));
                },
                None => {},
            }
        }
        proof {
            assert(stored@ =~= with_values(before, values));
            assert(content_of(stored@).len() == content_of(before).len());
            assert forall|a: int, b: int|
                0 <= a < content_of(stored@).len() && 0 <= b < content_of(stored@).len() && a != b implies content_of(
                stored@,
            )[a].0 != content_of(stored@)[b].0 by {
                assert(content_of(stored@)[a].0 == content_of(before)[a].0);
                assert(content_of(stored@)[b].0 == content_of(before)[b].0);
            }
        }
        self.exchange(stored);
    }

    /// The first entry, in the order of the entries, that the predicate
    /// accepts.
    pub fn find<Predicate>(&self, predicate: Predicate) -> (found: Option<(&String, &V)>) where
        Predicate: Fn(&(&String, &V)) -> bool,

        requires
            forall|at: int| 0 <= at < self.stored().len() ==> can_judge(predicate, self.stored(), at),
        ensures
            match found {
                Some(entry) => exists|at: int|
                    {
                        &&& 0 <= at < self.stored().len()
                        &&& (*entry.0, *entry.1) == self.stored()[at]
                        &&& verdict_at(predicate, self.stored(), at, true)
                        &&& forall|earlier: int|
                            0 <= earlier < at ==> verdict_at(predicate, self.stored(), earlier, false)
                    },
                None => forall|at: int|
                    0 <= at < self.stored().len() ==> verdict_at(predicate, self.stored(), at, false),
            },
    {
        let mut i: usize = 0;
        while i < self.inner.len()
            invariant
                i <= self.stored().len(),
                self.stored() == self.inner@,
                forall|at: int| 0 <= at < self.stored().len() ==> can_judge(predicate, self.stored(), at),
                forall|earlier: int|
                    0 <= earlier < i ==> verdict_at(predicate, self.stored(), earlier, false),
            decreases self.stored().len() - i,
        {
            let entry = (&self.inner[i].0, &self.inner[i].1);
            assert(can_judge(predicate, self.stored(), i as int));
            if predicate(&entry) {
                assert(verdict_at(predicate, self.stored(), i as int, true));
                assert((*entry.0, *entry.1) == self.stored()[i as int]);
                return Some(entry);
            }
            assert(verdict_at(predicate, self.stored(), i as int, false));
            i += 1;
        }
        None
    }

    /// The entries that the predicate accepts, in the order of the entries.
    /// The predicate is asked once about each entry, in that order.
    pub fn filter<Predicate>(&self, predicate: Predicate) -> (matching: Vec<(&String, &V)>) where
        Predicate: Fn(&(&String, &V)) -> bool,

        requires
            forall|at: int| 0 <= at < self.stored().len() ==> can_judge(predicate, self.stored(), at),
        ensures
            exists|verdicts: Seq<bool>|
                {
                    &&& verdicts.len() == self.stored().len()
                    &&& forall|at: int|
                        0 <= at < verdicts.len() ==> verdict_at(predicate, self.stored(), at, verdicts[at])
                    &&& referents(matching@) == accepted(self.stored(), verdicts)
                },
    {
        let mut matching: Vec<(&String, &V)> = Vec::new();
        let ghost mut verdicts: Seq<bool> = Seq::empty();
        let mut i: usize = 0;
        assert(referents(matching@) =~= accepted(self.stored().take(0), verdicts));
        while i < self.inner.len()
            invariant
                i <= self.stored().len(),
                self.stored() == self.inner@,
                forall|at: int| 0 <= at < self.stored().len() ==> can_judge(predicate, self.stored(), at),
                verdicts.len() == i,
                forall|at: int| 0 <= at < i ==> verdict_at(predicate, self.stored(), at, verdicts[at]),
                referents(matching@) == accepted(self.stored().take(i as int), verdicts),
            decreases self.stored().len() - i,
        {
            let entry = (&self.inner[i].0, &self.inner[i].1);
            assert(can_judge(predicate, self.stored(), i as int));
            let verdict = predicate(&entry);
            assert(verdict_at(predicate, self.stored(), i as int, verdict));
            let ghost earlier = referents(matching@);
            if verdict {
                matching.push(entry);
                assert(referents(matching@) =~= earlier.push(self.stored()[i as int]));
            }
            proof {
                let longer = self.stored().take(i + 1);
                assert(longer.drop_last() =~= self.stored().take(i as int));
                assert(verdicts.push(verdict).drop_last() =~= verdicts);
                assert(longer.last() == self.stored()[i as int]);
                verdicts = verdicts.push(verdict);
            }
            i += 1;
        }
        assert(self.stored().take(i as int) =~= self.stored());
        matching
    }

    /// The values that the mapper makes of the entries, in the order of the
    /// entries: one for each entry of which it makes a value. The mapper is
    /// asked once about each entry, in that order. The store does not change.
    pub fn filter_mut<Mapper>(&self, mapper: Mapper) -> (values: Vec<V>) where
        Mapper: Fn((&String, &V)) -> Option<V>,

        requires
            forall|at: int| 0 <= at < self.stored().len() ==> can_map(mapper, self.stored(), at),
        ensures
            exists|outcomes: Seq<Option<V>>|
                {
                    &&& outcomes.len() == self.stored().len()
                    &&& forall|at: int|
                        0 <= at < outcomes.len() ==> outcome_at(mapper, self.stored(), at, outcomes[at])
                    &&& values@ == produced(outcomes)
                },
    {
        let mut values: Vec<V> = Vec::new();
        let ghost mut outcomes: Seq<Option<V>> = Seq::empty();
        let mut i: usize = 0;
        while i < self.inner.len()
            invariant
                i <= self.stored().len(),
                self.stored() == self.inner@,
                forall|at: int| 0 <= at < self.stored().len() ==> can_map(mapper, self.stored(), at),
                outcomes.len() == i,
                forall|at: int| 0 <= at < i ==> outcome_at(mapper, self.stored(), at, outcomes[at]),
                values@ == produced(outcomes),
            decreases self.stored().len() - i,
        {
            assert(can_map(mapper, self.stored(), i as int));
            let outcome = mapper((&self.inner[i].0, &self.inner[i].1));
            assert(outcome_at(mapper, self.stored(), i as int, outcome));
            proof {
                assert(outcomes.push(outcome).drop_last() =~= outcomes);
                outcomes = outcomes.push(outcome);
            }
            match outcome {
                Some(value) => {
                    values.push(value);
                },
                None => {},
            }
            i += 1;
        }
        values
    }
}

/// A value that was set under a key is the value that the key has.
pub proof fn law_set_then_get<C>(store: Map<Seq<char>, C>, key: Seq<char>, value: C)
    ensures
        lookup(store.insert(key, value), key) == Some(value),
{
}

/// Removing a key after a value was set under it returns that value, and
/// the key then has none.
pub proof fn law_set_then_remove<C>(store: Map<Seq<char>, C>, key: Seq<char>, value: C)
    ensures
        lookup(store.insert(key, value), key) == Some(value),
        lookup(store.insert(key, value).remove(key), key) is None,
{
}

/// A cleared store has no keys, whatever it held.
pub proof fn law_clear_leaves_no_keys<V: View>(cleared: Store<V>, keys: Seq<&String>)
    requires
        cleared.entries() == Seq::<(Seq<char>, V::V)>::empty(),
        keys.len() == cleared.stored().len(),
    ensures
        keys.len() == 0,
        forall|key: Seq<char>| !cleared@.contains_key(key),
{
    assert(cleared.entries().len() == cleared.stored().len());
    assert forall|key: Seq<char>| !cleared@.contains_key(key) by {
        if has_key(cleared.entries(), key) {
            let at = place_of(cleared.entries(), key);
            assert(is_place_of(cleared.entries(), key, at));
        }
    }
}

} // verus!
