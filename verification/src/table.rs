//! Keyed record tables.
//!
//! The engine's components keep their per-asset and per-domain records in
//! ordered vectors of key/value pairs. This module gives the common
//! specification of such a table — `assoc_find` returns the value at the
//! first occurrence of a key — together with the lemmas that connect it
//! to the index-based reasoning of the executable lookup and update
//! loops, and the two lookup loops themselves.

use vstd::prelude::*;

use crate::address::Address;

verus! {

/// The value at the first occurrence of `key`, if any.
pub open spec fn assoc_find<K, V>(entries: Seq<(K, V)>, key: K) -> Option<V>
    decreases entries.len(),
{
    if entries.len() == 0 {
        None
    } else if entries[0].0 == key {
        Some(entries[0].1)
    } else {
        assoc_find(entries.skip(1), key)
    }
}

/// If `i` is the first index holding `key`, the find returns its value.
pub proof fn lemma_assoc_find_at<K, V>(entries: Seq<(K, V)>, key: K, i: int)
    requires
        0 <= i < entries.len(),
        entries[i].0 == key,
        forall|j: int| 0 <= j < i ==> entries[j].0 != key,
    ensures
        assoc_find(entries, key) == Some(entries[i].1),
    decreases i,
{
    if i > 0 {
        lemma_assoc_find_at(entries.skip(1), key, i - 1);
    }
}

/// If no index holds `key`, the find returns nothing.
pub proof fn lemma_assoc_find_none<K, V>(entries: Seq<(K, V)>, key: K)
    requires
        forall|j: int| 0 <= j < entries.len() ==> entries[j].0 != key,
    ensures
        assoc_find(entries, key) is None,
    decreases entries.len(),
{
    if entries.len() > 0 {
        lemma_assoc_find_none(entries.skip(1), key);
    }
}

/// Overwriting the first occurrence of `key` rebinds `key` and leaves
/// every other key's binding unchanged.
pub proof fn lemma_assoc_find_update<K, V>(entries: Seq<(K, V)>, i: int, key: K, value: V, k2: K)
    requires
        0 <= i < entries.len(),
        entries[i].0 == key,
        forall|j: int| 0 <= j < i ==> entries[j].0 != key,
    ensures
        assoc_find(entries.update(i, (key, value)), k2) == if k2 == key {
            Some(value)
        } else {
            assoc_find(entries, k2)
        },
    decreases i,
{
    let updated = entries.update(i, (key, value));
    if i == 0 {
        if k2 != key {
            assert(updated.skip(1) =~= entries.skip(1));
        }
    } else {
        assert(updated.skip(1) =~= entries.skip(1).update(i - 1, (key, value)));
        lemma_assoc_find_update(entries.skip(1), i - 1, key, value, k2);
    }
}

/// Appending a binding for an absent key binds it and leaves every other
/// key's binding unchanged.
pub proof fn lemma_assoc_find_push<K, V>(entries: Seq<(K, V)>, key: K, value: V, k2: K)
    requires
        forall|j: int| 0 <= j < entries.len() ==> entries[j].0 != key,
    ensures
        assoc_find(entries.push((key, value)), k2) == if k2 == key {
            Some(value)
        } else {
            assoc_find(entries, k2)
        },
    decreases entries.len(),
{
    let pushed = entries.push((key, value));
    if entries.len() == 0 {
        assert(pushed[0] == (key, value));
        if k2 != key {
            assert(pushed.skip(1) =~= Seq::<(K, V)>::empty());
        }
    } else {
        assert(pushed[0] == entries[0]);
        assert(pushed.skip(1) =~= entries.skip(1).push((key, value)));
        lemma_assoc_find_push(entries.skip(1), key, value, k2);
        if pushed[0].0 == k2 {
            assert(assoc_find(pushed, k2) == Some(pushed[0].1));
            assert(assoc_find(entries, k2) == Some(entries[0].1));
        } else {
            assert(assoc_find(pushed, k2) == assoc_find(pushed.skip(1), k2));
            assert(assoc_find(entries, k2) == assoc_find(entries.skip(1), k2));
        }
    }
}

/// Index of the first entry keyed by an identifier, if any.
pub fn addr_key_find<V>(entries: &Vec<(Address, V)>, key: &Address) -> (r: Option<usize>)
    ensures
        match r {
            Some(i) => i < entries@.len() && entries@[i as int].0 == *key && forall|j: int|
                0 <= j < i ==> entries@[j].0 != *key,
            None => forall|j: int| 0 <= j < entries@.len() ==> entries@[j].0 != *key,
        },
{
    let n = entries.len();
    let mut i: usize = 0;
    while i < n
        invariant
            i <= n,
            n == entries@.len(),
            forall|j: int| 0 <= j < i ==> entries@[j].0 != *key,
        decreases n - i,
    {
        if entries[i].0 == *key {
            return Some(i);
        }
        i = i + 1;
    }
    None
}

/// Index of the first entry keyed by a domain identifier, if any.
pub fn chain_key_find<V>(entries: &Vec<(u64, V)>, key: u64) -> (r: Option<usize>)
    ensures
        match r {
            Some(i) => i < entries@.len() && entries@[i as int].0 == key && forall|j: int|
                0 <= j < i ==> entries@[j].0 != key,
            None => forall|j: int| 0 <= j < entries@.len() ==> entries@[j].0 != key,
        },
{
    let n = entries.len();
    let mut i: usize = 0;
    while i < n
        invariant
            i <= n,
            n == entries@.len(),
            forall|j: int| 0 <= j < i ==> entries@[j].0 != key,
        decreases n - i,
    {
        if entries[i].0 == key {
            return Some(i);
        }
        i = i + 1;
    }
    None
}

/// Whether a list of identifiers contains the given one.
pub fn addr_list_contains(entries: &Vec<Address>, key: &Address) -> (r: bool)
    ensures
        r == entries@.contains(*key),
{
    let n = entries.len();
    let mut i: usize = 0;
    while i < n
        invariant
            i <= n,
            n == entries@.len(),
            forall|j: int| 0 <= j < i ==> entries@[j] != *key,
        decreases n - i,
    {
        if entries[i] == *key {
            return true;
        }
        i = i + 1;
    }
    false
}

} // verus!
