//! Searching a list of keys for the first occurrence of a key: the meaning of
//! the small list-backed mappings of this crate.

use vstd::prelude::*;

verus! {

/// Index of the first of `keys`, at or after `from`, that equals `key`.
pub open spec fn first_index<K>(keys: Seq<K>, key: K, from: int) -> Option<int>
    decreases keys.len() - from,
{
    if from < 0 || from >= keys.len() {
        None
    } else if keys[from] == key {
        Some(from)
    } else {
        first_index(keys, key, from + 1)
    }
}

/// What a search from `from` finds: the first match, with no match before it.
pub proof fn lemma_first_index<K>(keys: Seq<K>, key: K, from: int)
    requires
        0 <= from,
    ensures
        match first_index(keys, key, from) {
            Some(i) => from <= i < keys.len() && keys[i] == key && forall|j: int|
                from <= j < i ==> keys[j] != key,
            None => forall|j: int| from <= j < keys.len() ==> keys[j] != key,
        },
    decreases keys.len() - from,
{
    if from < keys.len() && keys[from] != key {
        lemma_first_index(keys, key, from + 1);
    }
}

/// A search in a list with one more key at its end finds what it found
/// before, or else the new key at the end.
pub proof fn lemma_first_index_push<K>(keys: Seq<K>, added: K, key: K, from: int)
    requires
        0 <= from <= keys.len(),
    ensures
        first_index(keys.push(added), key, from) == (match first_index(keys, key, from) {
            Some(i) => Some(i),
            None => if key == added {
                Some(keys.len() as int)
            } else {
                None
            },
        }),
    decreases keys.len() - from,
{
    if from < keys.len() {
        assert(keys.push(added)[from] == keys[from]);
        if keys[from] != key {
            lemma_first_index_push(keys, added, key, from + 1);
        }
    } else {
        assert(keys.push(added)[from] == added);
        assert(first_index(keys.push(added), key, from + 1) is None);
    }
}

} // verus!
