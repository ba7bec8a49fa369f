//! A map from 32-byte keys to values that remembers the order in which its
//! keys arrived.

use crate::keys::bytes32_eq;
use vstd::prelude::*;

verus! {

/// One key with the value stored under it.
pub struct Entry<V> {
    pub key: [u8; 32],
    pub value: V,
}

/// A map keyed by 32-byte strings. No key is held twice; keys keep the order
/// of their first insertion.
pub struct KeyedMap<V> {
    entries: Vec<Entry<V>>,
}

/// Whether no two entries of `entries` share a key.
pub open spec fn distinct_keys<V>(entries: Seq<Entry<V>>) -> bool {
    forall|i: int, j: int|
        0 <= i < entries.len() && 0 <= j < entries.len() && i != j ==> entries[i].key
            != entries[j].key
}

/// The keys of `entries`, in order.
pub open spec fn keys_of<V>(entries: Seq<Entry<V>>) -> Seq<[u8; 32]> {
    Seq::new(entries.len(), |i: int| entries[i].key)
}

/// The value under `key` in `entries`: that of some entry with this key.
pub open spec fn value_of<V>(entries: Seq<Entry<V>>, key: [u8; 32]) -> V {
    entries[choose|i: int| 0 <= i < entries.len() && entries[i].key == key].value
}

/// The map that `entries` stand for.
pub open spec fn map_of<V>(entries: Seq<Entry<V>>) -> Map<[u8; 32], V> {
    Map::new(
        |key: [u8; 32]| exists|i: int| 0 <= i < entries.len() && entries[i].key == key,
        |key: [u8; 32]| value_of(entries, key),
    )
}

/// `keys` without `key`, the order of the others unchanged.
pub open spec fn without_key(keys: Seq<[u8; 32]>, key: [u8; 32]) -> Seq<[u8; 32]> {
    if keys.contains(key) {
        keys.remove(keys.index_of(key))
    } else {
        keys
    }
}

/// With distinct keys, the value under the key of entry `i` is that entry's.
pub proof fn lemma_value_at<V>(entries: Seq<Entry<V>>, i: int)
    requires
        distinct_keys(entries),
        0 <= i < entries.len(),
    ensures
        map_of(entries).contains_key(entries[i].key),
        map_of(entries)[entries[i].key] == entries[i].value,
        keys_of(entries).index_of(entries[i].key) == i,
        keys_of(entries).contains(entries[i].key),
{
    let key = entries[i].key;
    let j = choose|j: int| 0 <= j < entries.len() && entries[j].key == key;
    assert(j == i);
    let keys = keys_of(entries);
    assert(keys[i] == key);
    let k = keys.index_of(key);
    assert(0 <= k < keys.len() && keys[k] == key);
    assert(entries[k].key == key);
}

/// A key is in the map exactly if it is among the keys.
pub proof fn lemma_domain<V>(entries: Seq<Entry<V>>, key: [u8; 32])
    ensures
        map_of(entries).contains_key(key) <==> keys_of(entries).contains(key),
{
    let keys = keys_of(entries);
    if map_of(entries).contains_key(key) {
        let i = choose|i: int| 0 <= i < entries.len() && entries[i].key == key;
        assert(keys[i] == key);
    }
    if keys.contains(key) {
        let i = choose|i: int| 0 <= i < keys.len() && keys[i] == key;
        assert(entries[i].key == key);
    }
}

/// Appending an entry under a new key inserts it into the map.
pub proof fn lemma_push<V>(entries: Seq<Entry<V>>, entry: Entry<V>)
    requires
        distinct_keys(entries),
        !map_of(entries).contains_key(entry.key),
    ensures
        distinct_keys(entries.push(entry)),
        map_of(entries.push(entry)) == map_of(entries).insert(entry.key, entry.value),
        keys_of(entries.push(entry)) == keys_of(entries).push(entry.key),
{
    let after = entries.push(entry);
    assert(distinct_keys(after)) by {
        assert forall|i: int, j: int|
            0 <= i < after.len() && 0 <= j < after.len() && i != j implies after[i].key
            != after[j].key by {
            if i < entries.len() && j < entries.len() {
            } else if i < entries.len() {
                assert(entries[i].key != entry.key);
            } else {
                assert(entries[j].key != entry.key);
            }
        }
    }
    assert(keys_of(after) =~= keys_of(entries).push(entry.key));
    let target = map_of(entries).insert(entry.key, entry.value);
    assert forall|key: [u8; 32]| map_of(after).contains_key(key) <==> target.contains_key(
        key,
    ) by {
        if map_of(after).contains_key(key) {
            let i = choose|i: int| 0 <= i < after.len() && after[i].key == key;
            if i < entries.len() {
                assert(entries[i].key == key);
            }
        }
        if target.contains_key(key) {
            if key == entry.key {
                assert(after[entries.len() as int].key == key);
            } else {
                let i = choose|i: int| 0 <= i < entries.len() && entries[i].key == key;
                assert(after[i].key == key);
            }
        }
    }
    assert forall|key: [u8; 32]| map_of(after).contains_key(key) implies map_of(after)[key]
        == target[key] by {
        let i = choose|i: int| 0 <= i < after.len() && after[i].key == key;
        lemma_value_at(after, i);
        if i < entries.len() {
            lemma_value_at(entries, i);
        }
    }
    assert(map_of(after) =~= target);
}

/// Replacing the value of entry `i` updates the map under that entry's key.
pub proof fn lemma_update<V>(entries: Seq<Entry<V>>, i: int, entry: Entry<V>)
    requires
        distinct_keys(entries),
        0 <= i < entries.len(),
        entry.key == entries[i].key,
    ensures
        distinct_keys(entries.update(i, entry)),
        map_of(entries.update(i, entry)) == map_of(entries).insert(entry.key, entry.value),
        keys_of(entries.update(i, entry)) == keys_of(entries),
{
    let after = entries.update(i, entry);
    assert(distinct_keys(after)) by {
        assert forall|a: int, b: int|
            0 <= a < after.len() && 0 <= b < after.len() && a != b implies after[a].key
            != after[b].key by {
            assert(after[a].key == entries[a].key);
            assert(after[b].key == entries[b].key);
        }
    }
    assert(keys_of(after) =~= keys_of(entries));
    let target = map_of(entries).insert(entry.key, entry.value);
    assert forall|key: [u8; 32]| map_of(after).contains_key(key) <==> target.contains_key(
        key,
    ) by {
        if map_of(after).contains_key(key) {
            let a = choose|a: int| 0 <= a < after.len() && after[a].key == key;
            assert(entries[a].key == key);
        }
        if target.contains_key(key) {
            if key == entry.key {
                assert(after[i].key == key);
            } else {
                let a = choose|a: int| 0 <= a < entries.len() && entries[a].key == key;
                assert(after[a].key == key);
            }
        }
    }
    assert forall|key: [u8; 32]| map_of(after).contains_key(key) implies map_of(after)[key]
        == target[key] by {
        let a = choose|a: int| 0 <= a < after.len() && after[a].key == key;
        lemma_value_at(after, a);
        if a != i {
            lemma_value_at(entries, a);
        }
    }
    assert(map_of(after) =~= target);
}

/// Taking entry `i` out removes its key from the map, and from the keys.
pub proof fn lemma_remove<V>(entries: Seq<Entry<V>>, i: int)
    requires
        distinct_keys(entries),
        0 <= i < entries.len(),
    ensures
        distinct_keys(entries.remove(i)),
        map_of(entries.remove(i)) == map_of(entries).remove(entries[i].key),
        keys_of(entries.remove(i)) == without_key(keys_of(entries), entries[i].key),
{
    let after = entries.remove(i);
    let gone = entries[i].key;
    assert(distinct_keys(after)) by {
        assert forall|a: int, b: int|
            0 <= a < after.len() && 0 <= b < after.len() && a != b implies after[a].key
            != after[b].key by {
            let a0 = if a < i { a } else { a + 1 };
            let b0 = if b < i { b } else { b + 1 };
            assert(after[a] == entries[a0]);
            assert(after[b] == entries[b0]);
        }
    }
    lemma_value_at(entries, i);
    assert(keys_of(after) =~= keys_of(entries).remove(i));
    let target = map_of(entries).remove(gone);
    assert forall|key: [u8; 32]| map_of(after).contains_key(key) <==> target.contains_key(
        key,
    ) by {
        if map_of(after).contains_key(key) {
            let a = choose|a: int| 0 <= a < after.len() && after[a].key == key;
            let a0 = if a < i { a } else { a + 1 };
            assert(after[a] == entries[a0]);
            assert(entries[a0].key == key);
        }
        if target.contains_key(key) {
            let a0 = choose|a0: int| 0 <= a0 < entries.len() && entries[a0].key == key;
            assert(a0 != i);
            let a = if a0 < i { a0 } else { a0 - 1 };
            assert(after[a] == entries[a0]);
        }
    }
    assert forall|key: [u8; 32]| map_of(after).contains_key(key) implies map_of(after)[key]
        == target[key] by {
        let a = choose|a: int| 0 <= a < after.len() && after[a].key == key;
        let a0 = if a < i { a } else { a + 1 };
        assert(after[a] == entries[a0]);
        lemma_value_at(after, a);
        lemma_value_at(entries, a0);
    }
    assert(map_of(after) =~= target);
}

impl<V> KeyedMap<V> {
    #[verifier::type_invariant]
    spec fn well_formed(self) -> bool {
        distinct_keys(self.entries@)
    }

    /// The entries, in the order in which their keys arrived.
    pub closed spec fn entries(&self) -> Seq<Entry<V>> {
        self.entries@
    }

    /// The keys, in the order in which they arrived.
    pub open spec fn keys(&self) -> Seq<[u8; 32]> {
        keys_of(self.entries())
    }

    /// The map as a mathematical map.
    pub open spec fn view(&self) -> Map<[u8; 32], V> {
        map_of(self.entries())
    }

    /// A map without entries.
    pub fn new() -> (map: Self)
        ensures
            map.entries() == Seq::<Entry<V>>::empty(),
            map@ == Map::<[u8; 32], V>::empty(),
            map.keys() == Seq::<[u8; 32]>::empty(),
    {
        let map = KeyedMap { entries: Vec::new() };
        assert(map@ =~= Map::<[u8; 32], V>::empty());
        assert(map.keys() =~= Seq::<[u8; 32]>::empty());
        map
    }

    /// The number of keys. No key occurs twice among them.
    pub fn len(&self) -> (len: usize)
        ensures
            len == self.keys().len(),
            len == self.entries().len(),
            distinct_keys(self.entries()),
            self.keys().no_duplicates(),
    {
        proof {
            use_type_invariant(self);
        }
        self.entries.len()
    }

    /// Where `key` stands among the keys, if it does.
    pub fn position(&self, key: &[u8; 32]) -> (position: Option<usize>)
        ensures
            distinct_keys(self.entries()),
            match position {
                Some(i) => i < self.entries().len() && self.entries()[i as int].key == *key,
                None => !self@.contains_key(*key),
            },
            position.is_some() == self@.contains_key(*key),
    {
        proof {
            use_type_invariant(self);
        }
        let mut i: usize = 0;
        while i < self.entries.len()
            invariant
                i <= self.entries@.len(),
                distinct_keys(self.entries@),
                forall|j: int| 0 <= j < i ==> self.entries@[j].key != *key,
            decreases self.entries@.len() - i,
        {
            if bytes32_eq(&self.entries[i].key, key) {
                proof {
                    lemma_value_at(self.entries@, i as int);
                }
                return Some(i);
            }
            i += 1;
        }
        None
    }

    /// Whether a value is stored under `key`.
    pub fn contains_key(&self, key: &[u8; 32]) -> (present: bool)
        ensures
            present == self@.contains_key(*key),
    {
        self.position(key).is_some()
    }

    /// The value stored under `key`, if there is one.
    pub fn get(&self, key: &[u8; 32]) -> (value: Option<&V>)
        ensures
            match value {
                Some(v) => self@.contains_key(*key) && *v == self@[*key],
                None => !self@.contains_key(*key),
            },
    {
        match self.position(key) {
            Some(i) => {
                proof {
                    lemma_value_at(self.entries@, i as int);
                }
                Some(&self.entries[i].value)
            },
            None => None,
        }
    }

    /// The key at place `index` in the order of arrival, with its value.
    pub fn entry_at(&self, index: usize) -> (entry: &Entry<V>)
        requires
            index < self.keys().len(),
        ensures
            *entry == self.entries()[index as int],
            entry.key == self.keys()[index as int],
            self@.contains_key(entry.key),
            self@[entry.key] == entry.value,
    {
        proof {
            use_type_invariant(self);
            lemma_value_at(self.entries@, index as int);
        }
        &self.entries[index]
    }

    /// Stores `value` under `key`. A key that is new goes to the end of the
    /// order; one that was there keeps its place.
    pub fn insert(&mut self, key: [u8; 32], value: V)
        ensures
            final(self)@ == old(self)@.insert(key, value),
            final(self).keys() == if old(self)@.contains_key(key) {
                old(self).keys()
            } else {
                old(self).keys().push(key)
            },
    {
        proof {
            use_type_invariant(&*self);
        }
        let found = self.position(&key);
        let mut entries = Vec::new();
        std::mem::swap(&mut entries, &mut self.entries);
        let entry = Entry { key, value };
        match found {
            Some(i) => {
                proof {
                    lemma_update(entries@, i as int, entry);
                }
                entries.set(i, entry);
            },
            None => {
                proof {
                    lemma_push(entries@, entry);
                }
                entries.push(entry);
            },
        }
        self.entries = entries;
    }

    /// Takes `key` out, and returns the value that was stored under it.
    pub fn remove(&mut self, key: &[u8; 32]) -> (value: Option<V>)
        ensures
            final(self)@ == old(self)@.remove(*key),
            final(self).keys() == without_key(old(self).keys(), *key),
            match value {
                Some(v) => old(self)@.contains_key(*key) && v == old(self)@[*key],
                None => !old(self)@.contains_key(*key),
            },
    {
        proof {
            use_type_invariant(&*self);
            lemma_domain(self.entries@, *key);
        }
        match self.position(key) {
            Some(i) => {
                let mut entries = Vec::new();
                std::mem::swap(&mut entries, &mut self.entries);
                proof {
                    lemma_remove(entries@, i as int);
                    lemma_value_at(entries@, i as int);
                }
                let entry = entries.remove(i);
                self.entries = entries;
                Some(entry.value)
            },
            None => {
                assert(self@ =~= old(self)@.remove(*key));
                None
            },
        }
    }
}

} // verus!
