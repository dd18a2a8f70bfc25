//! Insertion-only tables.
//!
//! The ledger stores each kind of record as a sequence of entries, no two
//! under the same key, and reads that sequence as a map from key to value.
//! This module defines that reading, proves how it follows an append and an
//! update in place, and holds the search, the insertion and the replacement
//! that every table of the ledger shares.

use vstd::prelude::*;

verus! {

/// Whether some entry stands under `key`.
pub open spec fn has_key<K, V>(entries: Seq<(K, V)>, key: K) -> bool {
    exists|i: int| 0 <= i < entries.len() && (#[trigger] entries[i]).0 == key
}

/// The position of an entry under `key`, if there is one.
pub open spec fn position<K, V>(entries: Seq<(K, V)>, key: K) -> int {
    choose|i: int| 0 <= i < entries.len() && (#[trigger] entries[i]).0 == key
}

/// Whether no two entries stand under the same key.
pub open spec fn distinct_keys<K, V>(entries: Seq<(K, V)>) -> bool {
    forall|i: int, j: int|
        0 <= i < j < entries.len() ==> (#[trigger] entries[i]).0 != (#[trigger] entries[j]).0
}

/// The entries read as a map: each key that occurs, to the value under it.
pub open spec fn as_map<K, V>(entries: Seq<(K, V)>) -> Map<K, V> {
    Map::new(|key: K| has_key(entries, key), |key: K| entries[position(entries, key)].1)
}

/// Each entry is found in the map under its key.
pub proof fn lemma_entry_in_map<K, V>(entries: Seq<(K, V)>, i: int)
    requires
        distinct_keys(entries),
        0 <= i < entries.len(),
    ensures
        as_map(entries).contains_key(entries[i].0),
        as_map(entries)[entries[i].0] == entries[i].1,
        position(entries, entries[i].0) == i,
{
    let key = entries[i].0;
    assert(has_key(entries, key));
    let p = position(entries, key);
    assert(0 <= p < entries.len() && entries[p].0 == key);
    if p < i {
        assert(entries[p].0 != entries[i].0);
    } else if i < p {
        assert(entries[i].0 != entries[p].0);
    }
}

/// Appending an entry under a fresh key inserts it into the map.
pub proof fn lemma_push<K, V>(entries: Seq<(K, V)>, key: K, value: V)
    requires
        distinct_keys(entries),
        !has_key(entries, key),
    ensures
        distinct_keys(entries.push((key, value))),
        as_map(entries.push((key, value))) == as_map(entries).insert(key, value),
{
    let grown = entries.push((key, value));
    let n = entries.len() as int;
    assert forall|i: int, j: int| 0 <= i < j < grown.len() implies (#[trigger] grown[i]).0 != (
    #[trigger] grown[j]).0 by {
        if j < n {
            assert(entries[i].0 != entries[j].0);
        } else {
            assert(grown[i] == entries[i]);
            assert(entries[i].0 != key);
        }
    }
    assert(grown[n] == (key, value));
    assert forall|k: K| as_map(grown).contains_key(k) <==> as_map(entries).insert(
        key,
        value,
    ).contains_key(k) by {
        if has_key(grown, k) {
            let p = position(grown, k);
            if p < n {
                assert(entries[p] == grown[p]);
            }
        }
        if has_key(entries, k) {
            let p = position(entries, k);
            assert(grown[p] == entries[p]);
        }
    }
    assert forall|k: K| as_map(grown).contains_key(k) implies as_map(grown)[k] == as_map(
        entries,
    ).insert(key, value)[k] by {
        let p = position(grown, k);
        lemma_entry_in_map(grown, p);
        if p < n {
            assert(grown[p] == entries[p]);
            lemma_entry_in_map(entries, p);
        }
    }
    assert(as_map(grown) =~= as_map(entries).insert(key, value));
}

/// Replacing the value of an entry, under the same key, replaces it in the
/// map.
pub proof fn lemma_update<K, V>(entries: Seq<(K, V)>, i: int, value: V)
    requires
        distinct_keys(entries),
        0 <= i < entries.len(),
    ensures
        distinct_keys(entries.update(i, (entries[i].0, value))),
        as_map(entries.update(i, (entries[i].0, value))) == as_map(entries).insert(
            entries[i].0,
            value,
        ),
{
    let key = entries[i].0;
    let changed = entries.update(i, (key, value));
    assert forall|a: int| 0 <= a < changed.len() implies {
        (#[trigger] changed[a]).0 == entries[a].0
    } by {}
    assert forall|a: int, b: int| 0 <= a < b < changed.len() implies (#[trigger] changed[a]).0 != (
    #[trigger] changed[b]).0 by {
        assert(entries[a].0 != entries[b].0);
    }
    assert forall|k: K| as_map(changed).contains_key(k) <==> as_map(entries).insert(
        key,
        value,
    ).contains_key(k) by {
        if has_key(changed, k) {
            let p = position(changed, k);
            assert(entries[p].0 == k);
        }
        if has_key(entries, k) {
            let p = position(entries, k);
            assert(changed[p].0 == k);
        }
        assert(changed[i].0 == key);
    }
    assert forall|k: K| as_map(changed).contains_key(k) implies as_map(changed)[k] == as_map(
        entries,
    ).insert(key, value)[k] by {
        let p = position(changed, k);
        lemma_entry_in_map(changed, p);
        lemma_entry_in_map(entries, p);
    }
    assert(as_map(changed) =~= as_map(entries).insert(key, value));
}

/// A record that is stored under a key of its own.
pub trait Keyed: Sized {
    /// The key as callers hand it over.
    type Key;

    /// What a key stands for.
    type KeyView;

    /// What a record holds.
    type Content;

    /// What `key` stands for.
    spec fn key_view(key: &Self::Key) -> Self::KeyView;

    /// The key the record is stored under.
    spec fn key(&self) -> Self::KeyView;

    /// What the record holds.
    spec fn content(&self) -> Self::Content;

    /// The key the record is stored under.
    fn own_key(&self) -> (key: &Self::Key)
        ensures
            Self::key_view(key) == self.key(),
    ;

    /// Whether the record is stored under `key`.
    fn is_under(&self, key: &Self::Key) -> (under: bool)
        ensures
            under == (self.key() == Self::key_view(key)),
    ;
}

/// The records as entries: each with its key and what it holds.
pub open spec fn entries<T: Keyed>(records: Seq<T>) -> Seq<(T::KeyView, T::Content)> {
    records.map_values(|record: T| (record.key(), record.content()))
}

/// Whether no two records are stored under the same key.
pub open spec fn unique<T: Keyed>(records: Seq<T>) -> bool {
    distinct_keys(entries(records))
}

/// The records read as a map from key to what the record holds.
pub open spec fn contents<T: Keyed>(records: Seq<T>) -> Map<T::KeyView, T::Content> {
    as_map(entries(records))
}

/// The position of the record under `key`, if there is one.
pub fn find<T: Keyed>(records: &Vec<T>, key: &T::Key) -> (found: Option<usize>)
    ensures
        match found {
            Some(i) => i < records.len() && records[i as int].key() == T::key_view(key),
            None => !has_key(entries(records@), T::key_view(key)),
        },
{
    let mut i: usize = 0;
    while i < records.len()
        invariant
            i <= records.len(),
            forall|j: int| 0 <= j < i ==> records[j].key() != T::key_view(key),
        decreases records.len() - i,
    {
        if records[i].is_under(key) {
            return Some(i);
        }
        i += 1;
    }
    proof {
        let listed = entries(records@);
        assert forall|j: int| 0 <= j < listed.len() implies {
            (#[trigger] listed[j]).0 != T::key_view(key)
        } by {
            assert(listed[j].0 == records[j].key());
        }
    }
    None
}

/// The record under `key`, if there is one.
pub fn get<'a, T: Keyed>(records: &'a Vec<T>, key: &T::Key) -> (found: Option<&'a T>)
    requires
        unique(records@),
    ensures
        match found {
            Some(record) => {
                &&& contents(records@).contains_key(T::key_view(key))
                &&& contents(records@)[T::key_view(key)] == record.content()
                &&& record.key() == T::key_view(key)
            },
            None => !contents(records@).contains_key(T::key_view(key)),
        },
{
    match find(records, key) {
        Some(i) => {
            proof {
                lemma_entry_in_map(entries(records@), i as int);
            }
            Some(&records[i])
        },
        None => None,
    }
}

/// Appends `record` unless a record is already stored under its key, and
/// tells whether it did.
pub fn insert<T: Keyed>(records: &mut Vec<T>, record: T) -> (inserted: bool)
    requires
        unique(old(records)@),
    ensures
        unique(final(records)@),
        inserted == !contents(old(records)@).contains_key(record.key()),
        inserted ==> final(records)@ == old(records)@.push(record),
        inserted ==> contents(final(records)@) == contents(old(records)@).insert(
            record.key(),
            record.content(),
        ),
        !inserted ==> final(records)@ == old(records)@,
{
    match find(records, record.own_key()) {
        Some(i) => {
            proof {
                lemma_entry_in_map(entries(records@), i as int);
            }
            false
        },
        None => {
            proof {
                lemma_push(entries(records@), record.key(), record.content());
                assert(entries(records@.push(record)) =~= entries(records@).push(
                    (record.key(), record.content()),
                ));
            }
            records.push(record);
            true
        },
    }
}

/// Puts `record` in place of the record stored under its key, if there is
/// one, and tells whether it did.
pub fn replace<T: Keyed>(records: &mut Vec<T>, record: T) -> (replaced: bool)
    requires
        unique(old(records)@),
    ensures
        unique(final(records)@),
        replaced == contents(old(records)@).contains_key(record.key()),
        replaced ==> contents(final(records)@) == contents(old(records)@).insert(
            record.key(),
            record.content(),
        ),
        !replaced ==> final(records)@ == old(records)@,
{
    match find(records, record.own_key()) {
        Some(i) => {
            proof {
                let listed = entries(records@);
                lemma_entry_in_map(listed, i as int);
                lemma_update(listed, i as int, record.content());
                assert(entries(records@.update(i as int, record)) =~= listed.update(
                    i as int,
                    (listed[i as int].0, record.content()),
                ));
            }
            records[i] = record;
            true
        },
        None => false,
    }
}

} // verus!
