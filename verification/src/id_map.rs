//! A map keyed by integers, kept as a list in ascending order of the keys.

use vstd::prelude::*;

verus! {

/// Whether the keys of `entries` are strictly ascending.
pub open spec fn ascending<V>(entries: Seq<(i64, V)>) -> bool {
    forall|i: int, j: int| 0 <= i < j < entries.len() ==> (#[trigger] entries[i]).0 < (#[trigger] entries[j]).0
}

/// Whether `key` occurs at index `i`.
pub open spec fn key_at<V>(entries: Seq<(i64, V)>, key: i64, i: int) -> bool {
    0 <= i < entries.len() && entries[i].0 == key
}

/// The map that `entries` lists.
pub open spec fn table<V>(entries: Seq<(i64, V)>) -> Map<i64, V> {
    Map::new(
        |key: i64| exists|i: int| key_at(entries, key, i),
        |key: i64| entries[choose|i: int| key_at(entries, key, i)].1,
    )
}

/// Whether an entry is that of `key`.
pub open spec fn has_key<V>(key: i64) -> spec_fn((i64, V)) -> bool {
    |entry: (i64, V)| entry.0 == key
}

/// `entries` without the first entry of `key`.
pub open spec fn without<V>(entries: Seq<(i64, V)>, key: i64) -> Seq<(i64, V)> {
    crate::model::remove_first(entries, has_key(key))
}

/// An entry of a list with ascending keys is an entry of its map.
pub proof fn lemma_table_at<V>(entries: Seq<(i64, V)>, i: int)
    requires
        ascending(entries),
        0 <= i < entries.len(),
    ensures
        table(entries).dom().contains(entries[i].0),
        table(entries)[entries[i].0] == entries[i].1,
{
    let key = entries[i].0;
    assert(key_at(entries, key, i));
    let k = choose|k: int| key_at(entries, key, k);
    assert(key_at(entries, key, k));
    assert(k == i);
}

pub proof fn lemma_table_absent<V>(entries: Seq<(i64, V)>, key: i64)
    requires
        forall|i: int| 0 <= i < entries.len() ==> (#[trigger] entries[i]).0 != key,
    ensures
        !table(entries).dom().contains(key),
{
}

/// An entry put in where its key belongs is an entry of the map.
pub proof fn lemma_table_insert<V>(entries: Seq<(i64, V)>, p: int, key: i64, value: V)
    requires
        ascending(entries),
        0 <= p <= entries.len(),
        forall|i: int| 0 <= i < p ==> (#[trigger] entries[i]).0 < key,
        forall|i: int| p <= i < entries.len() ==> (#[trigger] entries[i]).0 > key,
    ensures
        ascending(entries.insert(p, (key, value))),
        table(entries.insert(p, (key, value))) == table(entries).insert(key, value),
{
    let after = entries.insert(p, (key, value));
    assert(ascending(after));
    assert forall|k: i64| table(after).dom().contains(k) == table(entries).insert(
        key,
        value,
    ).dom().contains(k) by {
        if table(after).dom().contains(k) {
            let i = choose|i: int| key_at(after, k, i);
            assert(key_at(after, k, i));
            if i < p {
                assert(key_at(entries, k, i));
            } else if i > p {
                assert(key_at(entries, k, i - 1));
            }
        }
        if table(entries).dom().contains(k) {
            let i = choose|i: int| key_at(entries, k, i);
            assert(key_at(entries, k, i));
            if i < p {
                assert(key_at(after, k, i));
            } else {
                assert(key_at(after, k, i + 1));
            }
        }
        assert(key_at(after, key, p));
    }
    assert forall|k: i64| table(after).dom().contains(k) implies table(after)[k] == table(
        entries,
    ).insert(key, value)[k] by {
        let i = choose|i: int| key_at(after, k, i);
        assert(key_at(after, k, i));
        lemma_table_at(after, i);
        if i < p {
            lemma_table_at(entries, i);
        } else if i > p {
            lemma_table_at(entries, i - 1);
        }
    }
    assert(table(after) =~= table(entries).insert(key, value));
}

proof fn lemma_table_update<V>(entries: Seq<(i64, V)>, p: int, value: V)
    requires
        ascending(entries),
        0 <= p < entries.len(),
    ensures
        ascending(entries.update(p, (entries[p].0, value))),
        table(entries.update(p, (entries[p].0, value))) == table(entries).insert(
            entries[p].0,
            value,
        ),
{
    let key = entries[p].0;
    let after = entries.update(p, (key, value));
    assert(ascending(after));
    assert forall|k: i64| table(after).dom().contains(k) == table(entries).insert(
        key,
        value,
    ).dom().contains(k) by {
        if table(after).dom().contains(k) {
            let i = choose|i: int| key_at(after, k, i);
            assert(key_at(entries, k, i));
        }
        if table(entries).dom().contains(k) {
            let i = choose|i: int| key_at(entries, k, i);
            assert(key_at(after, k, i));
        }
        assert(key_at(after, key, p));
    }
    assert forall|k: i64| table(after).dom().contains(k) implies table(after)[k] == table(
        entries,
    ).insert(key, value)[k] by {
        let i = choose|i: int| key_at(after, k, i);
        assert(key_at(after, k, i));
        lemma_table_at(after, i);
        lemma_table_at(entries, i);
    }
    assert(table(after) =~= table(entries).insert(key, value));
}

pub proof fn lemma_table_remove<V>(entries: Seq<(i64, V)>, p: int)
    requires
        ascending(entries),
        0 <= p < entries.len(),
    ensures
        ascending(entries.remove(p)),
        table(entries.remove(p)) == table(entries).remove(entries[p].0),
{
    let key = entries[p].0;
    let after = entries.remove(p);
    assert(ascending(after));
    assert forall|k: i64| table(after).dom().contains(k) == table(entries).remove(
        key,
    ).dom().contains(k) by {
        if table(after).dom().contains(k) {
            let i = choose|i: int| key_at(after, k, i);
            assert(key_at(after, k, i));
            if i < p {
                assert(key_at(entries, k, i));
            } else {
                assert(key_at(entries, k, i + 1));
            }
        }
        if table(entries).dom().contains(k) && k != key {
            let i = choose|i: int| key_at(entries, k, i);
            assert(key_at(entries, k, i));
            if i < p {
                assert(key_at(after, k, i));
            } else {
                assert(key_at(after, k, i - 1));
            }
        }
    }
    assert forall|k: i64| table(after).dom().contains(k) implies table(after)[k] == table(
        entries,
    ).remove(key)[k] by {
        let i = choose|i: int| key_at(after, k, i);
        assert(key_at(after, k, i));
        lemma_table_at(after, i);
        if i < p {
            lemma_table_at(entries, i);
        } else {
            lemma_table_at(entries, i + 1);
        }
    }
    assert(table(after) =~= table(entries).remove(key));
}

/// The map of a list with ascending keys has as many entries as the list.
pub proof fn lemma_table_len<V>(entries: Seq<(i64, V)>)
    requires
        ascending(entries),
    ensures
        table(entries).dom().finite(),
        table(entries).dom().len() == entries.len(),
    decreases entries.len(),
{
    if entries.len() == 0 {
        assert(table(entries).dom() =~= Set::<i64>::empty());
    } else {
        let p = entries.len() - 1;
        lemma_table_remove(entries, p);
        lemma_table_at(entries, p);
        lemma_table_len(entries.remove(p));
        let key = entries[p].0;
        let smaller = table(entries.remove(p)).dom();
        assert(table(entries).dom() =~= smaller.insert(key));
        assert(!smaller.contains(key));
    }
}

/// A map from integers to `V`.
#[derive(Debug, Clone)]
pub struct IdMap<V> {
    pub entries: Vec<(i64, V)>,
}

impl<V> View for IdMap<V> {
    type V = Map<i64, V>;

    open spec fn view(&self) -> Map<i64, V> {
        table(self.entries@)
    }
}

impl<V> IdMap<V> {
    /// The keys are strictly ascending.
    pub open spec fn wf(self) -> bool {
        ascending(self.entries@)
    }

    /// The map without entries.
    pub fn new() -> (map: Self)
        ensures
            map.wf(),
            map@ == Map::<i64, V>::empty(),
            map.entries@.len() == 0,
    {
        let map = IdMap { entries: Vec::new() };
        assert(map@ =~= Map::<i64, V>::empty());
        map
    }

    fn position(&self, key: i64) -> (p: usize)
        requires
            self.wf(),
        ensures
            p <= self.entries@.len(),
            forall|i: int| 0 <= i < p ==> (#[trigger] self.entries@[i]).0 < key,
            forall|i: int| p <= i < self.entries@.len() ==> (#[trigger] self.entries@[i]).0 >= key,
    {
        let mut p: usize = 0;
        while p < self.entries.len() && self.entries[p].0 < key
            invariant
                p <= self.entries@.len(),
                forall|i: int| 0 <= i < p ==> (#[trigger] self.entries@[i]).0 < key,
            decreases self.entries@.len() - p,
        {
            p += 1;
        }
        p
    }

    /// The number of entries.
    pub fn len(&self) -> (n: usize)
        requires
            self.wf(),
        ensures
            n == self@.dom().len(),
            n == self.entries@.len(),
    {
        proof {
            lemma_table_len(self.entries@);
        }
        self.entries.len()
    }

    /// Whether `key` has a value.
    pub fn contains_key(&self, key: i64) -> (found: bool)
        requires
            self.wf(),
        ensures
            found == self@.dom().contains(key),
    {
        let p = self.position(key);
        if p < self.entries.len() && self.entries[p].0 == key {
            assert(key_at(self.entries@, key, p as int));
            true
        } else {
            proof {
                lemma_table_absent(self.entries@, key);
            }
            false
        }
    }

    /// The value of `key`.
    pub fn get(&self, key: i64) -> (value: Option<&V>)
        requires
            self.wf(),
        ensures
            match value {
                Some(v) => self@.dom().contains(key) && *v == self@[key],
                None => !self@.dom().contains(key),
            },
    {
        let p = self.position(key);
        if p < self.entries.len() && self.entries[p].0 == key {
            proof {
                lemma_table_at(self.entries@, p as int);
            }
            Some(&self.entries[p].1)
        } else {
            proof {
                lemma_table_absent(self.entries@, key);
            }
            None
        }
    }

    /// Gives `key` the value `value`, and returns the value that it had.
    pub fn insert(&mut self, key: i64, value: V) -> (replaced: Option<V>)
        requires
            old(self).wf(),
        ensures
            final(self).wf(),
            final(self)@ == old(self)@.insert(key, value),
            match replaced {
                Some(v) => old(self)@.dom().contains(key) && v == old(self)@[key],
                None => !old(self)@.dom().contains(key),
            },
    {
        let p = self.position(key);
        let ghost before = self.entries@;
        if p < self.entries.len() && self.entries[p].0 == key {
            proof {
                lemma_table_at(before, p as int);
                lemma_table_update(before, p as int, value);
            }
            let (_, replaced) = self.entries.remove(p);
            self.entries.insert(p, (key, value));
            assert(self.entries@ =~= before.update(p as int, (key, value)));
            Some(replaced)
        } else {
            proof {
                lemma_table_absent(before, key);
                assert forall|i: int| p <= i < before.len() implies (#[trigger] before[i]).0
                    > key by {
                    assert(before[p as int].0 <= before[i].0);
                }
                lemma_table_insert(before, p as int, key, value);
            }
            self.entries.insert(p, (key, value));
            None
        }
    }

    /// Takes `key` out, and returns the value that it had.
    pub fn remove(&mut self, key: i64) -> (removed: Option<V>)
        requires
            old(self).wf(),
        ensures
            final(self).wf(),
            final(self)@ == old(self)@.remove(key),
            final(self).entries@ == without(old(self).entries@, key),
            match removed {
                Some(v) => old(self)@.dom().contains(key) && v == old(self)@[key],
                None => !old(self)@.dom().contains(key),
            },
    {
        let p = self.position(key);
        let ghost before = self.entries@;
        let ghost is_key = has_key::<V>(key);
        if p < self.entries.len() && self.entries[p].0 == key {
            proof {
                lemma_table_at(before, p as int);
                lemma_table_remove(before, p as int);
                crate::model::lemma_first_index(before, is_key, p as int);
            }
            let (_, removed) = self.entries.remove(p);
            Some(removed)
        } else {
            proof {
                lemma_table_absent(before, key);
                assert(table(before) =~= table(before).remove(key));
                crate::model::lemma_first_index(before, is_key, before.len() as int);
            }
            None
        }
    }
}

} // verus!
