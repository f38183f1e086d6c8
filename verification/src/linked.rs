//! A map that keeps its entries in the order in which they were put in.
//!
//! The map is the `LinkedHashMap` of the `linked-hash-map` crate. Verus does
//! not look inside it: what it holds is given a name, and each method that
//! the tools call is wrapped with a contract over that name, as the source of
//! the crate shows the method to behave.

use crate::table::{key_index, keys_of, pairs_view};
use linked_hash_map::LinkedHashMap;
use vstd::prelude::*;

verus! {

/// The map of the `linked-hash-map` crate, of which Verus sees nothing
/// inside.
#[verifier::external_type_specification]
#[verifier::external_body]
#[verifier::reject_recursive_types(K)]
#[verifier::reject_recursive_types(V)]
#[verifier::reject_recursive_types(S)]
pub struct ExLinkedHashMap<K, V, S>(LinkedHashMap<K, V, S>);

/// What a map holds: its entries, each a key with a text, the one put in
/// first at the front.
pub uninterp spec fn linked_entries(map: LinkedHashMap<String, String>) -> Seq<
    (Seq<char>, Seq<char>),
>;

/// The entries after `text` was put under `key`: the entry stands at the
/// end, and the entry that had the key is gone from its place.
pub open spec fn spec_linked_put(
    entries: Seq<(Seq<char>, Seq<char>)>,
    key: Seq<char>,
    text: Seq<char>,
) -> Seq<(Seq<char>, Seq<char>)> {
    match key_index(keys_of(entries), key) {
        Some(at) => entries.remove(at).push((key, text)),
        None => entries.push((key, text)),
    }
}

/// Calls `LinkedHashMap::new`, which is taken to give a map without entries.
#[verifier::external_body]
pub(crate) fn linked_new() -> (map: LinkedHashMap<String, String>)
    ensures
        linked_entries(map) == Seq::<(Seq<char>, Seq<char>)>::empty(),
{
    LinkedHashMap::new()
}

/// Calls `LinkedHashMap::insert`, which is taken to put the entry at the
/// end, and to move an entry that had the key there with its new text.
#[verifier::external_body]
pub(crate) fn linked_insert(map: &mut LinkedHashMap<String, String>, key: String, text: String)
    ensures
        linked_entries(*final(map)) == spec_linked_put(linked_entries(*old(map)), key@, text@),
{
    map.insert(key, text);
}

/// Calls `LinkedHashMap::iter`, which is taken to hand out the entries in
/// their order, and copies each.
#[verifier::external_body]
pub(crate) fn linked_pairs(map: &LinkedHashMap<String, String>) -> (pairs: Vec<(String, String)>)
    ensures
        pairs_view(pairs@) == linked_entries(*map),
{
    map.iter().map(|(key, text)| (key.clone(), text.clone())).collect()
}

} // verus!
