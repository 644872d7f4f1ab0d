//! A verified association list: a vector of `(String, value)` pairs viewed as
//! a mathematical map from key characters to value views. A later entry for a
//! key shadows an earlier one.

use vstd::prelude::*;

use crate::strutil::str_eq;

verus! {

/// The mapping an entry list stands for; a later entry for a key shadows an
/// earlier one.
pub open spec fn kv_map<V: View>(entries: Seq<(String, V)>) -> Map<Seq<char>, V::V>
    decreases entries.len(),
{
    if entries.len() == 0 {
        Map::empty()
    } else {
        kv_map(entries.drop_last()).insert(entries.last().0@, entries.last().1@)
    }
}

/// No two entries share a key.
pub open spec fn kv_unique_keys<V: View>(entries: Seq<(String, V)>) -> bool {
    forall|j: int, k: int|
        0 <= j < k < entries.len() ==> (#[trigger] entries[j]).0@ != (#[trigger] entries[k]).0@
}

/// Entries at and beyond position `i` that never mention `key` do not affect
/// the mapping at `key`.
pub proof fn lemma_kv_map_skip<V: View>(entries: Seq<(String, V)>, key: Seq<char>, i: int)
    requires
        0 <= i <= entries.len(),
        forall|j: int| i <= j < entries.len() ==> (#[trigger] entries[j]).0@ != key,
    ensures
        kv_map(entries).contains_key(key) == kv_map(entries.take(i)).contains_key(key),
        kv_map(entries).contains_key(key) ==> kv_map(entries)[key] == kv_map(entries.take(i))[key],
    decreases entries.len() - i,
{
    if i == entries.len() {
        assert(entries.take(i) =~= entries);
    } else {
        lemma_kv_map_skip(entries, key, i + 1);
        assert(entries.take(i + 1).drop_last() =~= entries.take(i));
        assert(entries.take(i + 1).last() == entries[i]);
    }
}

/// A key that some entry carries is in the mapping.
pub proof fn lemma_kv_map_contains<V: View>(entries: Seq<(String, V)>, i: int)
    requires
        0 <= i < entries.len(),
    ensures
        kv_map(entries).contains_key(entries[i].0@),
    decreases entries.len(),
{
    if i < entries.len() - 1 {
        lemma_kv_map_contains(entries.drop_last(), i);
    }
}

/// A key that no entry carries is not in the mapping.
pub proof fn lemma_kv_map_absent<V: View>(entries: Seq<(String, V)>, key: Seq<char>)
    requires
        forall|j: int| 0 <= j < entries.len() ==> (#[trigger] entries[j]).0@ != key,
    ensures
        !kv_map(entries).contains_key(key),
{
    lemma_kv_map_skip(entries, key, 0);
    assert(entries.take(0) =~= Seq::<(String, V)>::empty());
}

/// Removing the entry at `i`, when keys are unique, removes exactly that key
/// from the mapping.
pub proof fn lemma_kv_map_remove<V: View>(entries: Seq<(String, V)>, i: int)
    requires
        0 <= i < entries.len(),
        kv_unique_keys(entries),
    ensures
        kv_map(entries.remove(i)) =~= kv_map(entries).remove(entries[i].0@),
    decreases entries.len(),
{
    if i == entries.len() - 1 {
        assert(entries.remove(i) =~= entries.drop_last());
        lemma_kv_map_absent(entries.drop_last(), entries[i].0@);
    } else {
        assert(entries.remove(i).drop_last() =~= entries.drop_last().remove(i));
        assert(kv_unique_keys::<V>(entries.drop_last()));
        lemma_kv_map_remove(entries.drop_last(), i);
        assert(entries.remove(i).last() == entries.last());
        assert(entries.last().0@ != entries[i].0@);
    }
}

/// Look a value up by key.
pub fn kv_get<'a, V: View>(entries: &'a Vec<(String, V)>, key: &str) -> (r: Option<&'a V>)
    ensures
        match r {
            Some(v) => kv_map(entries@).contains_key(key@) && v@ == kv_map(entries@)[key@],
            None => !kv_map(entries@).contains_key(key@),
        },
{
    let mut i: usize = entries.len();
    while i > 0
        invariant
            i <= entries@.len(),
            forall|j: int| i <= j < entries@.len() ==> (#[trigger] entries@[j]).0@ != key@,
        decreases i,
    {
        i = i - 1;
        if str_eq(entries[i].0.as_str(), key) {
            proof {
                lemma_kv_map_skip(entries@, key@, i + 1);
                assert(entries@.take(i + 1).drop_last() =~= entries@.take(i as int));
                assert(entries@.take(i + 1).last() == entries@[i as int]);
            }
            return Some(&entries[i].1);
        }
    }
    proof {
        lemma_kv_map_absent(entries@, key@);
    }
    None
}

/// The position of the live entry for a key, if any: the last entry carrying
/// that key.
pub fn kv_position<V: View>(entries: &Vec<(String, V)>, key: &str) -> (r: Option<usize>)
    ensures
        match r {
            Some(i) => i < entries@.len() && entries@[i as int].0@ == key@ && kv_map(
                entries@,
            ).contains_key(key@) && kv_map(entries@)[key@] == entries@[i as int].1@ && (forall|
                j: int,
            |
                i < j < entries@.len() ==> (#[trigger] entries@[j]).0@ != key@),
            None => !kv_map(entries@).contains_key(key@),
        },
{
    let mut i: usize = entries.len();
    while i > 0
        invariant
            i <= entries@.len(),
            forall|j: int| i <= j < entries@.len() ==> (#[trigger] entries@[j]).0@ != key@,
        decreases i,
    {
        i = i - 1;
        if str_eq(entries[i].0.as_str(), key) {
            proof {
                lemma_kv_map_skip(entries@, key@, i + 1);
                assert(entries@.take(i + 1).drop_last() =~= entries@.take(i as int));
                assert(entries@.take(i + 1).last() == entries@[i as int]);
            }
            return Some(i);
        }
    }
    proof {
        lemma_kv_map_absent(entries@, key@);
    }
    None
}

} // verus!
