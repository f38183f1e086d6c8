//! Tables that are kept in the order of their keys.
//!
//! Keys are ordered as strings are: character by character, by code point, a
//! text before every longer text that begins with it.

use crate::table::{keys_of, pairs_view};
use crate::text::chars_of;
use vstd::prelude::*;

verus! {

/// Whether `a` stands before `b`, given that they agree before position
/// `from`.
pub open spec fn spec_text_lt_from(a: Seq<char>, b: Seq<char>, from: int) -> bool
    decreases b.len() - from,
{
    if from < 0 || from >= b.len() {
        false
    } else if from >= a.len() {
        true
    } else if a[from] != b[from] {
        (a[from] as u32) < (b[from] as u32)
    } else {
        spec_text_lt_from(a, b, from + 1)
    }
}

/// Whether `a` stands before `b` in the order of texts.
pub open spec fn spec_text_lt(a: Seq<char>, b: Seq<char>) -> bool {
    spec_text_lt_from(a, b, 0)
}

/// Each key stands before the next.
pub open spec fn spec_ascending(keys: Seq<Seq<char>>) -> bool {
    forall|i: int| 0 <= i < keys.len() - 1 ==> spec_text_lt(#[trigger] keys[i], keys[i + 1])
}

/// The first position at or after `from` whose key does not stand before
/// `key`; the number of keys where every key from there on does.
pub open spec fn spec_place_from(keys: Seq<Seq<char>>, key: Seq<char>, from: int) -> int
    decreases keys.len() - from,
{
    if from < 0 || from >= keys.len() {
        keys.len() as int
    } else if !spec_text_lt(keys[from], key) {
        from
    } else {
        spec_place_from(keys, key, from + 1)
    }
}

/// `table` with `value` put under `key` at the place of the key: in place of
/// the entry that had the key, or before the first entry whose key does not
/// stand before it.
pub open spec fn spec_sorted_put<V>(table: Seq<(Seq<char>, V)>, key: Seq<char>, value: V) -> Seq<
    (Seq<char>, V),
> {
    let at = spec_place_from(keys_of(table), key, 0);
    if at < table.len() && table[at].0 == key {
        table.update(at, (key, value))
    } else {
        table.insert(at, (key, value))
    }
}

/// Of two texts that agree before `from` and are not equal, one stands before
/// the other.
pub proof fn lemma_text_order_total_from(a: Seq<char>, b: Seq<char>, from: int)
    requires
        0 <= from <= a.len(),
        from <= b.len(),
        a.subrange(0, from) == b.subrange(0, from),
        a != b,
    ensures
        spec_text_lt_from(a, b, from) || spec_text_lt_from(b, a, from),
    decreases a.len() + b.len() - 2 * from,
{
    if from >= a.len() {
        if from >= b.len() {
            assert(a =~= a.subrange(0, from));
            assert(b =~= b.subrange(0, from));
        }
    } else if from >= b.len() {
    } else if a[from] != b[from] {
        let x = a[from] as u32;
        let y = b[from] as u32;
        vstd::utf8::char_u32_cast(a[from], x);
        vstd::utf8::char_u32_cast(b[from], y);
    } else {
        assert(a.subrange(0, from + 1) =~= a.subrange(0, from).push(a[from]));
        assert(b.subrange(0, from + 1) =~= b.subrange(0, from).push(b[from]));
        lemma_text_order_total_from(a, b, from + 1);
    }
}

/// Of two texts that are not equal, one stands before the other.
pub proof fn lemma_text_order_total(a: Seq<char>, b: Seq<char>)
    requires
        a != b,
    ensures
        spec_text_lt(a, b) || spec_text_lt(b, a),
{
    assert(a.subrange(0, 0) =~= b.subrange(0, 0));
    lemma_text_order_total_from(a, b, 0);
}

/// What `spec_place_from` finds: every key from `from` up to the place
/// stands before `key`, and the key at the place does not.
pub proof fn lemma_place_from(keys: Seq<Seq<char>>, key: Seq<char>, from: int)
    requires
        0 <= from <= keys.len(),
    ensures
        from <= spec_place_from(keys, key, from) <= keys.len(),
        forall|i: int| from <= i < spec_place_from(keys, key, from) ==> spec_text_lt(keys[i], key),
        spec_place_from(keys, key, from) < keys.len() ==> !spec_text_lt(
            keys[spec_place_from(keys, key, from)],
            key,
        ),
    decreases keys.len() - from,
{
    if from < keys.len() && spec_text_lt(keys[from], key) {
        lemma_place_from(keys, key, from + 1);
    }
}

/// Putting an entry at the place of its key keeps ascending keys ascending.
pub proof fn lemma_sorted_put_ascending<V>(table: Seq<(Seq<char>, V)>, key: Seq<char>, value: V)
    requires
        spec_ascending(keys_of(table)),
    ensures
        spec_ascending(keys_of(spec_sorted_put(table, key, value))),
{
    let keys = keys_of(table);
    let at = spec_place_from(keys, key, 0);
    lemma_place_from(keys, key, 0);
    let after = spec_sorted_put(table, key, value);
    let after_keys = keys_of(after);
    if at < table.len() && table[at].0 == key {
        assert(after_keys =~= keys);
    } else {
        if at < keys.len() {
            lemma_text_order_total(key, keys[at]);
        }
        assert forall|i: int| 0 <= i < after_keys.len() - 1 implies spec_text_lt(
            #[trigger] after_keys[i],
            after_keys[i + 1],
        ) by {
            if i + 1 < at {
            } else if i + 1 == at {
                assert(after_keys[i] == keys[i]);
                assert(after_keys[i + 1] == key);
            } else if i == at {
                assert(after_keys[i] == key);
                assert(after_keys[i + 1] == keys[at]);
            } else {
                assert(after_keys[i] == keys[i - 1]);
                assert(after_keys[i + 1] == keys[i]);
            }
        }
    }
}

/// Whether `a` stands before `b` in the order of texts.
pub fn text_lt(a: &Vec<char>, b: &Vec<char>) -> (before: bool)
    ensures
        before == spec_text_lt(a@, b@),
{
    let mut i: usize = 0;
    while i < b.len()
        invariant
            i <= b.len(),
            i <= a.len(),
            spec_text_lt(a@, b@) == spec_text_lt_from(a@, b@, i as int),
        decreases b.len() - i,
    {
        if i >= a.len() {
            return true;
        }
        if a[i] != b[i] {
            let x: u32 = a[i] as u32;
            let y: u32 = b[i] as u32;
            return x < y;
        }
        i = i + 1;
    }
    false
}

/// Puts `value` under `key` into `table` at the place of the key.
pub fn sorted_put(table: &mut Vec<(String, String)>, key: String, value: String)
    ensures
        pairs_view(final(table)@) == spec_sorted_put(pairs_view(old(table)@), key@, value@),
{
    let wanted = chars_of(key.as_str());
    let ghost before = pairs_view(table@);
    let ghost keys = keys_of(before);
    let mut at: usize = 0;
    let mut placed = false;
    while !placed && at < table.len()
        invariant
            at <= table.len(),
            wanted@ == key@,
            before == pairs_view(table@),
            keys == keys_of(before),
            spec_place_from(keys, key@, 0) == spec_place_from(keys, key@, at as int),
            placed ==> at < table.len() && !spec_text_lt(keys[at as int], key@),
        decreases table.len() - at + (if placed { 0int } else { 1int }),
    {
        let held = chars_of(table[at].0.as_str());
        assert(keys[at as int] == held@);
        if !text_lt(&held, &wanted) {
            placed = true;
        } else {
            at = at + 1;
        }
    }
    let ghost key_text = key@;
    let ghost value_text = value@;
    if at < table.len() && crate::text::same_text(table[at].0.as_str(), key.as_str()) {
        table.set(at, (key, value));
        assert(pairs_view(table@) =~= before.update(at as int, (key_text, value_text)));
    } else {
        table.insert(at, (key, value));
        assert(pairs_view(table@) =~= before.insert(at as int, (key_text, value_text)));
    }
}

} // verus!
