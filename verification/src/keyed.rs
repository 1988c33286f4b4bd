//! Association lists keyed by strings: the library's maps, whose keys are
//! compared by their characters and never occur twice.

use vstd::prelude::*;

verus! {

/// No key occurs twice.
pub open spec fn unique_keys<V>(s: Seq<(String, V)>) -> bool {
    forall|i: int, j: int| 0 <= i < j < s.len() ==> s[i].0@ != s[j].0@
}

/// Whether some entry has key `k`.
pub open spec fn has_key<V>(s: Seq<(String, V)>, k: Seq<char>) -> bool {
    exists|i: int| 0 <= i < s.len() && s[i].0@ == k
}

/// The index of the entry with key `k` (meaningful when `has_key`).
pub open spec fn key_index<V>(s: Seq<(String, V)>, k: Seq<char>) -> int {
    choose|i: int| 0 <= i < s.len() && s[i].0@ == k
}

/// The map that the list stands for.
pub open spec fn assoc_map<V>(s: Seq<(String, V)>) -> Map<Seq<char>, V> {
    Map::new(|k: Seq<char>| has_key(s, k), |k: Seq<char>| s[key_index(s, k)].1)
}

/// In a list without repeated keys, entry `i` is what the map holds at its key.
pub proof fn lemma_assoc_entry<V>(s: Seq<(String, V)>, i: int)
    requires
        unique_keys(s),
        0 <= i < s.len(),
    ensures
        assoc_map(s).contains_key(s[i].0@),
        assoc_map(s)[s[i].0@] == s[i].1,
        key_index(s, s[i].0@) == i,
{
    assert(has_key(s, s[i].0@));
}

/// Appending an entry with a fresh key inserts it into the map.
pub proof fn lemma_assoc_push<V>(s: Seq<(String, V)>, k: String, v: V)
    requires
        unique_keys(s),
        !has_key(s, k@),
    ensures
        unique_keys(s.push((k, v))),
        assoc_map(s.push((k, v))) == assoc_map(s).insert(k@, v),
{
    let t = s.push((k, v));
    assert forall|key: Seq<char>| #[trigger] has_key(t, key) <==> (has_key(s, key) || key == k@) by {
        if has_key(s, key) {
            let i = key_index(s, key);
            assert(t[i].0@ == key);
        }
        if key == k@ {
            assert(t[s.len() as int].0@ == key);
        }
        if has_key(t, key) {
            let i = key_index(t, key);
            if i < s.len() {
                assert(s[i].0@ == key);
            }
        }
    }
    assert forall|key: Seq<char>| #[trigger] has_key(t, key) implies t[key_index(t, key)].1
        == assoc_map(s).insert(k@, v)[key] by {
        let i = key_index(t, key);
        if key == k@ {
            if i < s.len() {
                assert(s[i].0@ == k@);
            }
        } else {
            assert(i < s.len());
            assert(s[i].0@ == key);
            lemma_assoc_entry(s, i);
        }
    }
    assert(assoc_map(t) =~= assoc_map(s).insert(k@, v));
}

/// Removing entry `i` removes its key from the map.
pub proof fn lemma_assoc_remove<V>(s: Seq<(String, V)>, i: int)
    requires
        unique_keys(s),
        0 <= i < s.len(),
    ensures
        unique_keys(s.remove(i)),
        assoc_map(s.remove(i)) == assoc_map(s).remove(s[i].0@),
{
    let t = s.remove(i);
    let k = s[i].0@;
    assert forall|a: int, b: int| 0 <= a < b < t.len() implies t[a].0@ != t[b].0@ by {
        let a2 = if a < i { a } else { a + 1 };
        let b2 = if b < i { b } else { b + 1 };
        assert(t[a] == s[a2]);
        assert(t[b] == s[b2]);
    }
    assert forall|key: Seq<char>| #[trigger] has_key(t, key) <==> (has_key(s, key) && key != k) by {
        if has_key(t, key) {
            let j = key_index(t, key);
            let j2 = if j < i { j } else { j + 1 };
            assert(s[j2].0@ == key);
        }
        if has_key(s, key) && key != k {
            let j = key_index(s, key);
            assert(j != i);
            let j2 = if j < i { j } else { j - 1 };
            assert(t[j2].0@ == key);
        }
    }
    assert forall|key: Seq<char>| #[trigger] has_key(t, key) implies t[key_index(t, key)].1
        == assoc_map(s)[key] by {
        let j = key_index(t, key);
        let j2 = if j < i { j } else { j + 1 };
        assert(t[j] == s[j2]);
        lemma_assoc_entry(s, j2);
    }
    assert(assoc_map(t) =~= assoc_map(s).remove(k));
}

/// Replacing the value of entry `i` updates the map at its key.
pub proof fn lemma_assoc_update<V>(s: Seq<(String, V)>, i: int, v: V)
    requires
        unique_keys(s),
        0 <= i < s.len(),
    ensures
        unique_keys(s.update(i, (s[i].0, v))),
        assoc_map(s.update(i, (s[i].0, v))) == assoc_map(s).insert(s[i].0@, v),
{
    let t = s.update(i, (s[i].0, v));
    let k = s[i].0@;
    assert forall|key: Seq<char>| #[trigger] has_key(t, key) <==> has_key(s, key) by {
        if has_key(t, key) {
            let j = key_index(t, key);
            assert(s[j].0@ == key);
        }
        if has_key(s, key) {
            let j = key_index(s, key);
            assert(t[j].0@ == key);
        }
    }
    assert forall|key: Seq<char>| #[trigger] has_key(t, key) implies t[key_index(t, key)].1
        == assoc_map(s).insert(k, v)[key] by {
        let j = key_index(t, key);
        if j == i {
        } else {
            assert(t[j] == s[j]);
            lemma_assoc_entry(s, j);
            assert(s[j].0@ != k);
        }
    }
    assert(assoc_map(t) =~= assoc_map(s).insert(k, v));
}

/// Inserting an entry with a fresh key at any position inserts it into the map.
pub proof fn lemma_assoc_insert_at<V>(s: Seq<(String, V)>, i: int, k: String, v: V)
    requires
        unique_keys(s),
        !has_key(s, k@),
        0 <= i <= s.len(),
    ensures
        unique_keys(s.insert(i, (k, v))),
        assoc_map(s.insert(i, (k, v))) == assoc_map(s).insert(k@, v),
{
    let t = s.insert(i, (k, v));
    assert forall|a: int, b: int| 0 <= a < b < t.len() implies t[a].0@ != t[b].0@ by {
        if a != i && b != i {
            let a2 = if a < i { a } else { a - 1 };
            let b2 = if b < i { b } else { b - 1 };
            assert(t[a] == s[a2]);
            assert(t[b] == s[b2]);
        } else if a == i {
            let b2 = b - 1;
            assert(t[b] == s[b2]);
        } else {
            assert(t[a] == s[a]);
        }
    }
    assert forall|key: Seq<char>| #[trigger] has_key(t, key) <==> (has_key(s, key) || key == k@) by {
        if has_key(s, key) {
            let j = key_index(s, key);
            let j2 = if j < i { j } else { j + 1 };
            assert(t[j2].0@ == key);
        }
        if key == k@ {
            assert(t[i].0@ == key);
        }
        if has_key(t, key) {
            let j = key_index(t, key);
            if j != i {
                let j2 = if j < i { j } else { j - 1 };
                assert(s[j2].0@ == key);
            }
        }
    }
    assert forall|key: Seq<char>| #[trigger] has_key(t, key) implies t[key_index(t, key)].1
        == assoc_map(s).insert(k@, v)[key] by {
        let j = key_index(t, key);
        if j == i {
        } else {
            let j2 = if j < i { j } else { j - 1 };
            assert(t[j] == s[j2]);
            lemma_assoc_entry(s, j2);
        }
    }
    assert(assoc_map(t) =~= assoc_map(s).insert(k@, v));
}

/// The index of the entry whose key is `key`, if any.
pub fn find_key<V>(entries: &Vec<(String, V)>, key: &String) -> (r: Option<usize>)
    ensures
        match r {
            Some(i) => i < entries@.len() && entries@[i as int].0@ == key@,
            None => !has_key(entries@, key@),
        },
{
    let mut i: usize = 0;
    while i < entries.len()
        invariant
            i <= entries@.len(),
            forall|j: int| 0 <= j < i ==> entries@[j].0@ != key@,
        decreases entries@.len() - i,
    {
        if entries[i].0 == *key {
            return Some(i);
        }
        i = i + 1;
    }
    None
}

/// The value stored under `key`.
pub fn get_value<'a, V>(entries: &'a Vec<(String, V)>, key: &String) -> (r: Option<&'a V>)
    requires
        unique_keys(entries@),
    ensures
        r == (if assoc_map(entries@).contains_key(key@) {
            Some(&assoc_map(entries@)[key@])
        } else {
            None
        }),
{
    match find_key(entries, key) {
        Some(i) => {
            proof {
                lemma_assoc_entry(entries@, i as int);
            }
            Some(&entries[i].1)
        },
        None => None,
    }
}

/// Stores `value` under `key`, replacing what was there.
pub fn insert_value<V>(entries: &mut Vec<(String, V)>, key: String, value: V)
    requires
        unique_keys(old(entries)@),
    ensures
        unique_keys(final(entries)@),
        assoc_map(final(entries)@) == assoc_map(old(entries)@).insert(key@, value),
{
    match find_key(entries, &key) {
        Some(i) => {
            proof {
                lemma_assoc_update(entries@, i as int, value);
            }
            let ghost before = entries@;
            let old_entry = entries.remove(i);
            entries.insert(i, (old_entry.0, value));
            assert(entries@ =~= before.update(i as int, (before[i as int].0, value)));
        },
        None => {
            proof {
                lemma_assoc_push(entries@, key, value);
            }
            entries.push((key, value));
        },
    }
}

/// Removes the entry under `key` and hands back its value.
pub fn remove_value<V>(entries: &mut Vec<(String, V)>, key: &String) -> (r: Option<V>)
    requires
        unique_keys(old(entries)@),
    ensures
        unique_keys(final(entries)@),
        assoc_map(final(entries)@) == assoc_map(old(entries)@).remove(key@),
        r == (if assoc_map(old(entries)@).contains_key(key@) {
            Some(assoc_map(old(entries)@)[key@])
        } else {
            None
        }),
{
    match find_key(entries, key) {
        Some(i) => {
            proof {
                lemma_assoc_remove(entries@, i as int);
                lemma_assoc_entry(entries@, i as int);
            }
            let e = entries.remove(i);
            Some(e.1)
        },
        None => {
            assert(assoc_map(entries@).remove(key@) =~= assoc_map(entries@));
            None
        },
    }
}

} // verus!
