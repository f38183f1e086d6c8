//! Association lists keyed by text.
//!
//! The tables of this crate are vectors of entries, each entry a key with
//! what belongs to it. An entry is found by its key, the first one winning;
//! the order of the entries is the order in which they were put in, which is
//! what makes every walk over a table deterministic.

use crate::text::same_text;
use vstd::prelude::*;

verus! {

/// The view of an optional string.
pub open spec fn opt_text(text: Option<String>) -> Option<Seq<char>> {
    match text {
        Some(t) => Some(t@),
        None => None,
    }
}

/// The views of a list of strings.
pub open spec fn texts_view(list: Seq<String>) -> Seq<Seq<char>> {
    Seq::new(list.len(), |i: int| list[i]@)
}

/// The views of a table from strings to strings.
pub open spec fn pairs_view(table: Seq<(String, String)>) -> Seq<(Seq<char>, Seq<char>)> {
    Seq::new(table.len(), |i: int| (table[i].0@, table[i].1@))
}

/// The views of a table from strings to lists of strings.
pub open spec fn lists_view(table: Seq<(String, Vec<String>)>) -> Seq<
    (Seq<char>, Seq<Seq<char>>),
> {
    Seq::new(table.len(), |i: int| (table[i].0@, texts_view(table[i].1@)))
}

/// The keys of a table, in the order of its entries.
pub open spec fn keys_of<V>(table: Seq<(Seq<char>, V)>) -> Seq<Seq<char>> {
    Seq::new(table.len(), |i: int| table[i].0)
}

/// The keys of a table as it is held in memory.
pub open spec fn stored_keys<V>(table: Seq<(String, V)>) -> Seq<Seq<char>> {
    Seq::new(table.len(), |i: int| table[i].0@)
}

/// The first position at or after `from` whose key is `key`.
pub open spec fn key_index_from(keys: Seq<Seq<char>>, key: Seq<char>, from: int) -> Option<int>
    decreases keys.len() - from,
{
    if from < 0 || from >= keys.len() {
        None
    } else if keys[from] == key {
        Some(from)
    } else {
        key_index_from(keys, key, from + 1)
    }
}

/// The first position whose key is `key`.
pub open spec fn key_index(keys: Seq<Seq<char>>, key: Seq<char>) -> Option<int> {
    key_index_from(keys, key, 0)
}

/// What the first entry with key `key` holds.
pub open spec fn assoc<V>(table: Seq<(Seq<char>, V)>, key: Seq<char>) -> Option<V> {
    match key_index(keys_of(table), key) {
        Some(i) => Some(table[i].1),
        None => None,
    }
}

/// No key occurs twice.
pub open spec fn distinct_keys(keys: Seq<Seq<char>>) -> bool {
    forall|i: int, j: int| 0 <= i < j < keys.len() ==> keys[i] != keys[j]
}

/// `table` with `value` put under `key`: in the place of the entry that had
/// the key, or behind the last entry where none had it.
pub open spec fn assoc_put<V>(table: Seq<(Seq<char>, V)>, key: Seq<char>, value: V) -> Seq<
    (Seq<char>, V),
> {
    match key_index(keys_of(table), key) {
        Some(i) => table.update(i, (key, value)),
        None => table.push((key, value)),
    }
}

/// `table` without the first entry whose key is `key`.
pub open spec fn assoc_remove<V>(table: Seq<(Seq<char>, V)>, key: Seq<char>) -> Seq<
    (Seq<char>, V),
> {
    match key_index(keys_of(table), key) {
        Some(i) => table.remove(i),
        None => table,
    }
}

/// What `key_index_from` finds is the first match at or after `from`.
pub proof fn lemma_key_index_from(keys: Seq<Seq<char>>, key: Seq<char>, from: int)
    requires
        0 <= from,
    ensures
        match key_index_from(keys, key, from) {
            Some(i) => {
                &&& from <= i < keys.len()
                &&& keys[i] == key
                &&& forall|j: int| from <= j < i ==> keys[j] != key
            },
            None => forall|j: int| from <= j < keys.len() ==> keys[j] != key,
        },
    decreases keys.len() - from,
{
    if from < keys.len() && keys[from] != key {
        lemma_key_index_from(keys, key, from + 1);
    }
}

/// What `key_index` finds is the first match.
pub proof fn lemma_key_index(keys: Seq<Seq<char>>, key: Seq<char>)
    ensures
        match key_index(keys, key) {
            Some(i) => {
                &&& 0 <= i < keys.len()
                &&& keys[i] == key
                &&& forall|j: int| 0 <= j < i ==> keys[j] != key
            },
            None => forall|j: int| 0 <= j < keys.len() ==> keys[j] != key,
        },
{
    lemma_key_index_from(keys, key, 0);
}

/// A position that holds `key`, with no earlier one that does, is what
/// `key_index` finds.
pub proof fn lemma_key_index_is(keys: Seq<Seq<char>>, key: Seq<char>, at: int)
    requires
        0 <= at < keys.len(),
        keys[at] == key,
        forall|j: int| 0 <= j < at ==> keys[j] != key,
    ensures
        key_index(keys, key) == Some(at),
{
    lemma_key_index(keys, key);
}

/// No position holds `key`: `key_index` finds nothing.
pub proof fn lemma_key_index_none(keys: Seq<Seq<char>>, key: Seq<char>)
    requires
        forall|j: int| 0 <= j < keys.len() ==> keys[j] != key,
    ensures
        key_index(keys, key) is None,
{
    lemma_key_index(keys, key);
}

/// After `assoc_put`, `key` leads to `value` and every other key to what it
/// led to before; distinct keys stay distinct.
pub proof fn lemma_assoc_put<V>(table: Seq<(Seq<char>, V)>, key: Seq<char>, value: V)
    ensures
        assoc(assoc_put(table, key, value), key) == Some(value),
        forall|other: Seq<char>|
            other != key ==> #[trigger] assoc(assoc_put(table, key, value), other) == assoc(
                table,
                other,
            ),
        distinct_keys(keys_of(table)) ==> distinct_keys(keys_of(assoc_put(table, key, value))),
{
    let keys = keys_of(table);
    let after = assoc_put(table, key, value);
    let after_keys = keys_of(after);
    lemma_key_index(keys, key);
    match key_index(keys, key) {
        Some(i) => {
            assert(after_keys =~= keys);
        },
        None => {
            assert(after_keys =~= keys.push(key));
            lemma_key_index_is(after_keys, key, keys.len() as int);
        },
    }
    assert forall|other: Seq<char>| other != key implies #[trigger] assoc(after, other) == assoc(
        table,
        other,
    ) by {
        lemma_key_index(keys, other);
        match key_index(keys, other) {
            Some(j) => {
                lemma_key_index_is(after_keys, other, j);
            },
            None => {
                lemma_key_index_none(after_keys, other);
            },
        }
    }
}

/// After `assoc_remove` of a table with distinct keys, `key` leads nowhere and
/// every other key to what it led to before; the keys stay distinct.
pub proof fn lemma_assoc_remove<V>(table: Seq<(Seq<char>, V)>, key: Seq<char>)
    requires
        distinct_keys(keys_of(table)),
    ensures
        assoc(assoc_remove(table, key), key) is None,
        forall|other: Seq<char>|
            other != key ==> #[trigger] assoc(assoc_remove(table, key), other) == assoc(
                table,
                other,
            ),
        distinct_keys(keys_of(assoc_remove(table, key))),
{
    let keys = keys_of(table);
    let after = assoc_remove(table, key);
    let after_keys = keys_of(after);
    lemma_key_index(keys, key);
    match key_index(keys, key) {
        Some(i) => {
            assert(after_keys =~= keys.remove(i));
            assert forall|j: int| 0 <= j < after_keys.len() implies after_keys[j] != key by {}
            lemma_key_index_none(after_keys, key);
            assert forall|other: Seq<char>| other != key implies #[trigger] assoc(after, other)
                == assoc(table, other) by {
                lemma_key_index(keys, other);
                match key_index(keys, other) {
                    Some(j) => {
                        if j < i {
                            lemma_key_index_is(after_keys, other, j);
                        } else {
                            assert forall|m: int| 0 <= m < j - 1 implies after_keys[m]
                                != other by {}
                            lemma_key_index_is(after_keys, other, j - 1);
                        }
                    },
                    None => {
                        assert forall|m: int| 0 <= m < after_keys.len() implies after_keys[m]
                            != other by {}
                        lemma_key_index_none(after_keys, other);
                    },
                }
            }
            assert forall|a: int, b: int| 0 <= a < b < after_keys.len() implies after_keys[a]
                != after_keys[b] by {}
        },
        None => {},
    }
}

/// The position of the first entry of `table` whose key is `key`.
pub fn find_key<V>(table: &Vec<(String, V)>, key: &str) -> (found: Option<usize>)
    ensures
        match found {
            Some(i) => key_index(stored_keys(table@), key@) == Some(i as int) && i < table.len(),
            None => key_index(stored_keys(table@), key@) is None,
        },
{
    let ghost keys = stored_keys(table@);
    let mut i: usize = 0;
    while i < table.len()
        invariant
            i <= table.len(),
            keys == stored_keys(table@),
            key_index(keys, key@) == key_index_from(keys, key@, i as int),
        decreases table.len() - i,
    {
        if same_text(table[i].0.as_str(), key) {
            return Some(i);
        }
        i = i + 1;
    }
    None
}

/// What the first entry of `table` with key `key` holds.
pub fn lookup_pair<'a>(table: &'a Vec<(String, String)>, key: &str) -> (found: Option<&'a String>)
    ensures
        match found {
            Some(value) => assoc(pairs_view(table@), key@) == Some(value@),
            None => assoc(pairs_view(table@), key@) is None,
        },
{
    assert(keys_of(pairs_view(table@)) =~= stored_keys(table@));
    match find_key(table, key) {
        Some(i) => Some(&table[i].1),
        None => None,
    }
}

/// The list that the first entry of `table` with key `key` holds.
pub fn lookup_list<'a>(table: &'a Vec<(String, Vec<String>)>, key: &str) -> (found: Option<
    &'a Vec<String>,
>)
    ensures
        match found {
            Some(list) => assoc(lists_view(table@), key@) == Some(texts_view(list@)),
            None => assoc(lists_view(table@), key@) is None,
        },
{
    assert(keys_of(lists_view(table@)) =~= stored_keys(table@));
    match find_key(table, key) {
        Some(i) => Some(&table[i].1),
        None => None,
    }
}

/// Whether `list` holds `text`.
pub fn list_has(list: &Vec<String>, text: &str) -> (found: bool)
    ensures
        found == texts_view(list@).contains(text@),
{
    let mut i: usize = 0;
    while i < list.len()
        invariant
            i <= list.len(),
            forall|j: int| 0 <= j < i ==> texts_view(list@)[j] != text@,
        decreases list.len() - i,
    {
        if same_text(list[i].as_str(), text) {
            assert(texts_view(list@)[i as int] == text@);
            return true;
        }
        i = i + 1;
    }
    false
}

} // verus!
