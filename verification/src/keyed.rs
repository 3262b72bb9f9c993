//! Tables with a unique key, as mathematics: a sequence of key-value
//! entries in which no key occurs twice stands for a finite map.

use vstd::prelude::*;

verus! {

/// Whether some entry has the key `key`.
pub open spec fn has_key<K, V>(entries: Seq<(K, V)>, key: K) -> bool {
    exists|i: int| 0 <= i < entries.len() && (#[trigger] entries[i]).0 == key
}

/// The place of an entry with the key `key`, where there is one.
pub open spec fn index_of<K, V>(entries: Seq<(K, V)>, key: K) -> int {
    choose|i: int| 0 <= i < entries.len() && (#[trigger] entries[i]).0 == key
}

/// No key occurs in two entries.
pub open spec fn keys_distinct<K, V>(entries: Seq<(K, V)>) -> bool {
    forall|i: int, j: int|
        0 <= i < j < entries.len() ==> (#[trigger] entries[i]).0 != (#[trigger] entries[j]).0
}

/// The map from each key to the value of its entry.
pub open spec fn to_map<K, V>(entries: Seq<(K, V)>) -> Map<K, V> {
    Map::new(|key: K| has_key(entries, key), |key: K| entries[index_of(entries, key)].1)
}

/// With distinct keys, the entry at place `i` is the one its key leads to.
pub proof fn lemma_entry_at<K, V>(entries: Seq<(K, V)>, i: int)
    requires
        keys_distinct(entries),
        0 <= i < entries.len(),
    ensures
        has_key(entries, entries[i].0),
        index_of(entries, entries[i].0) == i,
        to_map(entries).contains_key(entries[i].0),
        to_map(entries)[entries[i].0] == entries[i].1,
{
}

/// A key of the map has an entry, and the map gives that entry's value.
pub proof fn lemma_key_has_entry<K, V>(entries: Seq<(K, V)>, key: K)
    requires
        to_map(entries).contains_key(key),
    ensures
        0 <= index_of(entries, key) < entries.len(),
        entries[index_of(entries, key)].0 == key,
        to_map(entries)[key] == entries[index_of(entries, key)].1,
{
}

/// No entries stand for the empty map.
pub proof fn lemma_no_entries<K, V>(entries: Seq<(K, V)>)
    requires
        entries.len() == 0,
    ensures
        keys_distinct(entries),
        to_map(entries) == Map::<K, V>::empty(),
{
}

/// An entry with a new key, put at the end, is an insertion into the map.
pub proof fn lemma_entry_added<K, V>(entries: Seq<(K, V)>, key: K, value: V)
    requires
        keys_distinct(entries),
        !has_key(entries, key),
    ensures
        keys_distinct(entries.push((key, value))),
        to_map(entries.push((key, value))) == to_map(entries).insert(key, value),
{
    let longer = entries.push((key, value));
    let last = entries.len() as int;
    assert(keys_distinct(longer));
    assert(longer[last].0 == key);
    assert forall|k: K| has_key(longer, k) <==> (k == key || has_key(entries, k)) by {
        if has_key(entries, k) {
            assert(longer[index_of(entries, k)].0 == k);
        }
    }
    assert forall|k: K| has_key(longer, k) implies #[trigger] to_map(longer)[k] == to_map(
        entries,
    ).insert(key, value)[k] by {
        if k != key {
            assert(longer[index_of(entries, k)].0 == k);
        }
    }
}

/// A new value for the entry at place `i`, under its old key, is an
/// overwrite in the map.
pub proof fn lemma_entry_replaced<K, V>(entries: Seq<(K, V)>, i: int, value: V)
    requires
        keys_distinct(entries),
        0 <= i < entries.len(),
    ensures
        keys_distinct(entries.update(i, (entries[i].0, value))),
        to_map(entries.update(i, (entries[i].0, value))) == to_map(entries).insert(
            entries[i].0,
            value,
        ),
{
    let key = entries[i].0;
    let changed = entries.update(i, (key, value));
    assert(keys_distinct(changed));
    assert forall|k: K| has_key(changed, k) <==> has_key(entries, k) by {
        if has_key(changed, k) {
            assert(entries[index_of(changed, k)].0 == k);
        }
        if has_key(entries, k) {
            assert(changed[index_of(entries, k)].0 == k);
        }
    }
    assert forall|k: K| has_key(changed, k) implies #[trigger] to_map(changed)[k] == to_map(
        entries,
    ).insert(key, value)[k] by {
        assert(changed[index_of(entries, k)].0 == k);
    }
}

/// With distinct keys the map is finite and has as many keys as there are
/// entries.
pub proof fn lemma_as_many_keys<K, V>(entries: Seq<(K, V)>)
    requires
        keys_distinct(entries),
    ensures
        to_map(entries).dom().finite(),
        to_map(entries).dom().len() == entries.len(),
    decreases entries.len(),
{
    if entries.len() == 0 {
        lemma_no_entries(entries);
    } else {
        let front = entries.drop_last();
        let last = entries.last();
        assert(entries =~= front.push(last));
        assert(keys_distinct(front));
        assert(!has_key(front, last.0));
        lemma_as_many_keys(front);
        lemma_entry_added(front, last.0, last.1);
    }
}

} // verus!
