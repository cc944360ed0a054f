//! A keyed store of records: at most one record per key.
//!
//! This is the flat keyspace of the ledger for one kind of record. Looking a
//! key up, writing a record under it, and reclaiming it are the only
//! operations.

use vstd::prelude::*;
use crate::address::RecordKey;

verus! {

/// One stored record with its key.
struct Entry<V> {
    key: RecordKey,
    value: V,
}

/// The records of one kind, each under its own key.
pub struct Table<V> {
    entries: Vec<Entry<V>>,
}

/// No key occurs twice.
spec fn distinct_keys<V>(entries: Seq<Entry<V>>) -> bool {
    forall|i: int, j: int|
        0 <= i < j < entries.len() ==> (#[trigger] entries[i]).key != (#[trigger] entries[j]).key
}

/// Some entry has this key.
spec fn holds<V>(entries: Seq<Entry<V>>, key: RecordKey) -> bool {
    exists|i: int| 0 <= i < entries.len() && (#[trigger] entries[i]).key == key
}

/// Where the entry with this key stands.
spec fn position<V>(entries: Seq<Entry<V>>, key: RecordKey) -> int {
    choose|i: int| 0 <= i < entries.len() && (#[trigger] entries[i]).key == key
}

/// The entries as a map from keys to record values.
spec fn as_map<V: View>(entries: Seq<Entry<V>>) -> Map<RecordKey, V::V> {
    Map::new(
        |key: RecordKey| holds(entries, key),
        |key: RecordKey| entries[position(entries, key)].value@,
    )
}

/// Each entry is what the map holds under the entry's key.
proof fn lemma_present<V: View>(entries: Seq<Entry<V>>, i: int)
    requires
        distinct_keys(entries),
        0 <= i < entries.len(),
    ensures
        as_map(entries).contains_key(entries[i].key),
        as_map(entries)[entries[i].key] == entries[i].value@,
{
    let key = entries[i].key;
    assert(holds(entries, key));
    let p = position(entries, key);
    if p < i {
        assert(entries[p].key != entries[i].key);
    } else if i < p {
        assert(entries[i].key != entries[p].key);
    }
}

/// Appending an entry with a new key inserts it into the map.
proof fn lemma_push<V: View>(entries: Seq<Entry<V>>, entry: Entry<V>)
    requires
        distinct_keys(entries),
        !holds(entries, entry.key),
    ensures
        distinct_keys(entries.push(entry)),
        as_map(entries.push(entry)) == as_map(entries).insert(entry.key, entry.value@),
{
    let after = entries.push(entry);
    let n = entries.len() as int;
    assert forall|a: int, b: int| 0 <= a < b < after.len() implies (#[trigger] after[a]).key != (
    #[trigger] after[b]).key by {
        if b == n {
            assert(entries[a].key != entry.key);
        } else {
            assert(entries[a].key != entries[b].key);
        }
    }
    assert forall|k: RecordKey| holds(after, k) == (k == entry.key || holds(entries, k)) by {
        if holds(entries, k) {
            assert(after[position(entries, k)].key == k);
        }
        if holds(after, k) {
            let p = position(after, k);
            if p < n {
                assert(entries[p].key == k);
            }
        }
        if k == entry.key {
            assert(after[n].key == k);
        }
    }
    assert forall|k: RecordKey| holds(after, k) implies #[trigger] as_map(after)[k] == (if k
        == entry.key {
        entry.value@
    } else {
        as_map(entries)[k]
    }) by {
        let p = position(after, k);
        lemma_present(after, p);
        if k != entry.key {
            lemma_present(entries, p);
        } else {
            lemma_present(after, n);
        }
    }
    assert(as_map(after) =~= as_map(entries).insert(entry.key, entry.value@));
}

/// Replacing an entry by one with the same key replaces it in the map.
proof fn lemma_update<V: View>(entries: Seq<Entry<V>>, i: int, entry: Entry<V>)
    requires
        distinct_keys(entries),
        0 <= i < entries.len(),
        entries[i].key == entry.key,
    ensures
        distinct_keys(entries.update(i, entry)),
        as_map(entries.update(i, entry)) == as_map(entries).insert(entry.key, entry.value@),
{
    let after = entries.update(i, entry);
    assert forall|a: int, b: int| 0 <= a < b < after.len() implies (#[trigger] after[a]).key != (
    #[trigger] after[b]).key by {
        assert(entries[a].key != entries[b].key);
    }
    assert forall|k: RecordKey| holds(after, k) == (k == entry.key || holds(entries, k)) by {
        if holds(entries, k) {
            assert(after[position(entries, k)].key == k);
        }
        if holds(after, k) {
            assert(entries[position(after, k)].key == k);
        }
        if k == entry.key {
            assert(after[i].key == k);
        }
    }
    assert forall|k: RecordKey| holds(after, k) implies #[trigger] as_map(after)[k] == (if k
        == entry.key {
        entry.value@
    } else {
        as_map(entries)[k]
    }) by {
        let p = position(after, k);
        lemma_present(after, p);
        if k != entry.key {
            lemma_present(entries, p);
        } else {
            lemma_present(after, i);
        }
    }
    assert(as_map(after) =~= as_map(entries).insert(entry.key, entry.value@));
}

/// Moving the last entry into the place of another removes that other
/// entry's key from the map.
proof fn lemma_swap_remove<V: View>(entries: Seq<Entry<V>>, i: int)
    requires
        distinct_keys(entries),
        0 <= i < entries.len(),
    ensures
        distinct_keys(entries.update(i, entries.last()).drop_last()),
        as_map(entries.update(i, entries.last()).drop_last()) == as_map(entries).remove(
            entries[i].key,
        ),
{
    let after = entries.update(i, entries.last()).drop_last();
    let key = entries[i].key;
    let n = entries.len() as int;
    assert forall|a: int, b: int| 0 <= a < b < after.len() implies (#[trigger] after[a]).key != (
    #[trigger] after[b]).key by {
        let from_a = if a == i { n - 1 } else { a };
        let from_b = if b == i { n - 1 } else { b };
        if from_a < from_b {
            assert(entries[from_a].key != entries[from_b].key);
        } else {
            assert(entries[from_b].key != entries[from_a].key);
        }
    }
    assert forall|k: RecordKey| holds(after, k) == (k != key && holds(entries, k)) by {
        if holds(entries, k) && k != key {
            let p = position(entries, k);
            if p == n - 1 {
                assert(after[i].key == k);
            } else {
                assert(after[p].key == k);
            }
        }
        if holds(after, k) {
            let p = position(after, k);
            let from = if p == i { n - 1 } else { p };
            assert(entries[from].key == k);
            if from < i {
                assert(entries[from].key != entries[i].key);
            } else if i < from {
                assert(entries[i].key != entries[from].key);
            }
        }
    }
    assert forall|k: RecordKey| holds(after, k) implies #[trigger] as_map(after)[k] == as_map(
        entries,
    )[k] by {
        let p = position(after, k);
        let from = if p == i { n - 1 } else { p };
        lemma_present(after, p);
        lemma_present(entries, from);
    }
    assert(as_map(after) =~= as_map(entries).remove(key));
}

impl<V> Table<V> {
    /// No key is stored twice.
    #[verifier::type_invariant]
    spec fn wf(&self) -> bool {
        distinct_keys(self.entries@)
    }
}

impl<V: View> View for Table<V> {
    type V = Map<RecordKey, V::V>;

    /// The table as a map from keys to record values.
    closed spec fn view(&self) -> Map<RecordKey, V::V> {
        as_map(self.entries@)
    }
}

impl<V: View> Table<V> {
    /// An empty table.
    pub fn new() -> (r: Self)
        ensures
            r@ == Map::<RecordKey, V::V>::empty(),
    {
        let r = Table { entries: Vec::new() };
        assert(r@ =~= Map::<RecordKey, V::V>::empty());
        r
    }

    fn find(&self, key: &RecordKey) -> (r: Option<usize>)
        ensures
            match r {
                Some(i) => i < self.entries@.len() && self.entries@[i as int].key == *key,
                None => !holds(self.entries@, *key),
            },
    {
        let mut i: usize = 0;
        while i < self.entries.len()
            invariant
                i <= self.entries@.len(),
                forall|j: int| 0 <= j < i ==> (#[trigger] self.entries@[j]).key != *key,
            decreases self.entries@.len() - i,
        {
            if self.entries[i].key == *key {
                return Some(i);
            }
            i += 1;
        }
        None
    }

    /// Whether a record is stored under `key`.
    pub fn contains_key(&self, key: &RecordKey) -> (r: bool)
        ensures
            r == self@.contains_key(*key),
    {
        self.find(key).is_some()
    }

    /// The record stored under `key`, if there is one.
    pub fn get(&self, key: &RecordKey) -> (r: Option<&V>)
        ensures
            match r {
                Some(value) => self@.contains_key(*key) && self@[*key] == value@,
                None => !self@.contains_key(*key),
            },
    {
        match self.find(key) {
            Some(i) => {
                proof {
                    use_type_invariant(self);
                    lemma_present(self.entries@, i as int);
                }
                Some(&self.entries[i].value)
            },
            None => None,
        }
    }

    /// Stores `value` under `key`, replacing the record that was there.
    pub fn insert(&mut self, key: RecordKey, value: V)
        ensures
            final(self)@ == old(self)@.insert(key, value@),
    {
        proof {
            use_type_invariant(&*self);
        }
        let found = self.find(&key);
        let mut entries: Vec<Entry<V>> = Vec::new();
        core::mem::swap(&mut entries, &mut self.entries);
        let entry = Entry { key, value };
        match found {
            Some(i) => {
                proof {
                    lemma_update(entries@, i as int, entry);
                }
                entries.set(i, entry);
            },
            None => {
                proof {
                    lemma_push(entries@, entry);
                }
                entries.push(entry);
            },
        }
        self.entries = entries;
    }

    /// Reclaims the record stored under `key` and hands it back; does
    /// nothing if there is none.
    pub fn remove(&mut self, key: &RecordKey) -> (r: Option<V>)
        ensures
            final(self)@ == old(self)@.remove(*key),
            match r {
                Some(value) => old(self)@.contains_key(*key) && old(self)@[*key] == value@,
                None => !old(self)@.contains_key(*key),
            },
    {
        proof {
            use_type_invariant(&*self);
        }
        match self.find(key) {
            Some(i) => {
                let mut entries: Vec<Entry<V>> = Vec::new();
                core::mem::swap(&mut entries, &mut self.entries);
                proof {
                    lemma_present(entries@, i as int);
                    lemma_swap_remove(entries@, i as int);
                }
                let entry = entries.swap_remove(i);
                self.entries = entries;
                Some(entry.value)
            },
            None => {
                assert(self@ =~= old(self)@.remove(*key));
                None
            },
        }
    }
}

} // verus!
