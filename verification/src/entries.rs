//! Lists of entries with text keys, read as maps.
//!
//! A list in which no key occurs twice stands for the map from each key to
//! the value beside it. The lemmas say what the list operations do to that
//! map.

use vstd::prelude::*;

verus! {

/// Whether some entry of `entries` has the key `key`.
pub open spec fn has_key<V>(entries: Seq<(String, V)>, key: Seq<char>) -> bool {
    exists|i: int| 0 <= i < entries.len() && (#[trigger] entries[i]).0@ == key
}

/// The place of an entry of `entries` with the key `key`.
pub open spec fn place_of<V>(entries: Seq<(String, V)>, key: Seq<char>) -> int {
    choose|i: int| 0 <= i < entries.len() && (#[trigger] entries[i]).0@ == key
}

/// No key occurs twice in `entries`.
pub open spec fn distinct_keys<V>(entries: Seq<(String, V)>) -> bool {
    forall|i: int, j: int|
        0 <= i < j < entries.len() ==> (#[trigger] entries[i]).0@ != (#[trigger] entries[j]).0@
}

/// The map that `entries` stand for: from each key to the value beside it.
pub open spec fn map_of<V>(entries: Seq<(String, V)>) -> Map<Seq<char>, V> {
    Map::new(|key: Seq<char>| has_key(entries, key), |key: Seq<char>| entries[place_of(entries, key)].1)
}

/// In a list without repeated keys, the entry at `i` is what the map holds
/// for its key.
pub proof fn lemma_entry_is_mapped<V>(entries: Seq<(String, V)>, i: int)
    requires
        distinct_keys(entries),
        0 <= i < entries.len(),
    ensures
        map_of(entries).contains_key(entries[i].0@),
        map_of(entries)[entries[i].0@] == entries[i].1,
        place_of(entries, entries[i].0@) == i,
{
    let key = entries[i].0@;
    let j = place_of(entries, key);
    assert(0 <= j < entries.len() && entries[j].0@ == key);
    if j < i {
        assert(entries[j].0@ != entries[i].0@);
    }
    if i < j {
        assert(entries[i].0@ != entries[j].0@);
    }
}

/// A new entry with a key that the list lacks adds that key to the map.
pub proof fn lemma_push_inserts<V>(entries: Seq<(String, V)>, key: String, value: V)
    requires
        distinct_keys(entries),
        !has_key(entries, key@),
    ensures
        distinct_keys(entries.push((key, value))),
        map_of(entries.push((key, value))) == map_of(entries).insert(key@, value),
{
    let longer = entries.push((key, value));
    assert forall|i: int, j: int| 0 <= i < j < longer.len() implies (#[trigger] longer[i]).0@ != (
    #[trigger] longer[j]).0@ by {
        if j < entries.len() {
            assert(longer[i] == entries[i]);
            assert(longer[j] == entries[j]);
        } else {
            assert(longer[i] == entries[i]);
            assert(longer[j].0@ == key@);
        }
    }
    assert forall|k: Seq<char>| has_key(longer, k) <==> (k == key@ || has_key(entries, k)) by {
        if has_key(longer, k) {
            let i = place_of(longer, k);
            if i < entries.len() {
                assert(longer[i] == entries[i]);
            }
        }
        if has_key(entries, k) {
            let i = place_of(entries, k);
            assert(longer[i] == entries[i]);
        }
        if k == key@ {
            assert(longer[entries.len() as int].0@ == k);
        }
    }
    assert forall|k: Seq<char>| has_key(longer, k) implies #[trigger] map_of(longer)[k] == map_of(
        entries,
    ).insert(key@, value)[k] by {
        let i = place_of(longer, k);
        lemma_entry_is_mapped(longer, i);
        if i < entries.len() {
            assert(longer[i] == entries[i]);
            lemma_entry_is_mapped(entries, i);
        }
    }
    assert(map_of(longer) =~= map_of(entries).insert(key@, value));
}

/// A new value at place `i`, under the same key, replaces the key's value in
/// the map.
pub proof fn lemma_update_inserts<V>(entries: Seq<(String, V)>, i: int, key: String, value: V)
    requires
        distinct_keys(entries),
        0 <= i < entries.len(),
        entries[i].0@ == key@,
    ensures
        distinct_keys(entries.update(i, (key, value))),
        map_of(entries.update(i, (key, value))) == map_of(entries).insert(key@, value),
{
    let changed = entries.update(i, (key, value));
    assert forall|a: int, b: int| 0 <= a < b < changed.len() implies (#[trigger] changed[a]).0@ != (
    #[trigger] changed[b]).0@ by {
        assert(changed[a].0@ == entries[a].0@);
        assert(changed[b].0@ == entries[b].0@);
    }
    assert forall|k: Seq<char>| has_key(changed, k) <==> has_key(entries, k) by {
        if has_key(changed, k) {
            let a = place_of(changed, k);
            assert(entries[a].0@ == k);
        }
        if has_key(entries, k) {
            let a = place_of(entries, k);
            assert(changed[a].0@ == k);
        }
    }
    lemma_entry_is_mapped(entries, i);
    assert forall|k: Seq<char>| has_key(changed, k) implies #[trigger] map_of(changed)[k] == map_of(
        entries,
    ).insert(key@, value)[k] by {
        let a = place_of(changed, k);
        lemma_entry_is_mapped(changed, a);
        assert(entries[a].0@ == k);
        lemma_entry_is_mapped(entries, a);
    }
    assert(map_of(changed) =~= map_of(entries).insert(key@, value));
}

/// Taking the entry at place `i` away takes its key out of the map.
pub proof fn lemma_remove_removes<V>(entries: Seq<(String, V)>, i: int)
    requires
        distinct_keys(entries),
        0 <= i < entries.len(),
    ensures
        distinct_keys(entries.remove(i)),
        map_of(entries.remove(i)) == map_of(entries).remove(entries[i].0@),
{
    let shorter = entries.remove(i);
    let gone = entries[i].0@;
    assert forall|a: int| 0 <= a < shorter.len() implies #[trigger] shorter[a] == entries[if a < i {
        a
    } else {
        a + 1
    }] by {}
    assert forall|a: int, b: int| 0 <= a < b < shorter.len() implies (#[trigger] shorter[a]).0@ != (
    #[trigger] shorter[b]).0@ by {
        let a2 = if a < i { a } else { a + 1 };
        let b2 = if b < i { b } else { b + 1 };
        assert(shorter[a] == entries[a2]);
        assert(shorter[b] == entries[b2]);
    }
    assert forall|k: Seq<char>| has_key(shorter, k) <==> (k != gone && has_key(entries, k)) by {
        if has_key(shorter, k) {
            let a = place_of(shorter, k);
            let a2 = if a < i { a } else { a + 1 };
            assert(shorter[a] == entries[a2]);
            assert(entries[a2].0@ == k);
            if a2 < i {
                assert(entries[a2].0@ != entries[i].0@);
            } else {
                assert(entries[i].0@ != entries[a2].0@);
            }
        }
        if k != gone && has_key(entries, k) {
            let a = place_of(entries, k);
            let a1 = if a < i { a } else { a - 1 };
            assert(shorter[a1] == entries[a]);
        }
    }
    assert forall|k: Seq<char>| has_key(shorter, k) implies #[trigger] map_of(shorter)[k] == map_of(
        entries,
    ).remove(gone)[k] by {
        let a = place_of(shorter, k);
        let a2 = if a < i { a } else { a + 1 };
        lemma_entry_is_mapped(shorter, a);
        assert(shorter[a] == entries[a2]);
        lemma_entry_is_mapped(entries, a2);
    }
    assert(map_of(shorter) =~= map_of(entries).remove(gone));
}

/// The place of the entry with the key `key`, if there is one.
pub fn find<V>(entries: &Vec<(String, V)>, key: &String) -> (place: Option<usize>)
    ensures
        match place {
            Some(i) => i < entries@.len() && entries@[i as int].0@ == key@,
            None => !has_key(entries@, key@),
        },
{
    let mut i: usize = 0;
    while i < entries.len()
        invariant
            i <= entries@.len(),
            forall|j: int| 0 <= j < i ==> (#[trigger] entries@[j]).0@ != key@,
        decreases entries@.len() - i,
    {
        if entries[i].0 == *key {
            return Some(i);
        }
        i = i + 1;
    }
    None
}

} // verus!
