//! The lookup cache: a bounded cache of resolved texts that evicts the entry
//! used least recently.
//!
//! The cache itself is the `LruCache` of the `lru` crate. Verus does not look
//! inside it: what it holds is given a name, and each method that the engine
//! calls is wrapped with a contract over that name, as the source of the
//! crate shows the method to behave. Everything the engine concludes about
//! the cache rests on these contracts.

use crate::table::{assoc, key_index, keys_of, opt_text, texts_view};
use lru::LruCache;
use std::num::NonZeroUsize;
use vstd::prelude::*;

verus! {

/// The cache of the `lru` crate, of which Verus sees nothing inside.
#[verifier::external_type_specification]
#[verifier::external_body]
#[verifier::reject_recursive_types(K)]
#[verifier::reject_recursive_types(V)]
#[verifier::reject_recursive_types(S)]
pub struct ExLruCache<K, V, S>(LruCache<K, V, S>);

/// The hasher that the cache of the `lru` crate uses unless it is given
/// another.
#[verifier::external_type_specification]
#[verifier::external_body]
pub struct ExDefaultHasher(lru::DefaultHasher);

/// What a cache holds: its entries, each a key with a text, the one used
/// most recently first and the one used least recently last.
pub uninterp spec fn cache_entries(cache: LruCache<String, String>) -> Seq<(Seq<char>, Seq<char>)>;

/// The number of entries that a cache was made to hold at most.
pub uninterp spec fn cache_limit(cache: LruCache<String, String>) -> nat;

/// The entries after the entry at `at` was used: it moves to the front.
pub open spec fn spec_promoted(entries: Seq<(Seq<char>, Seq<char>)>, at: int) -> Seq<
    (Seq<char>, Seq<char>),
> {
    seq![entries[at]] + entries.remove(at)
}

/// The entries after `key` was looked up: its entry, where there is one,
/// moves to the front.
pub open spec fn spec_after_get(entries: Seq<(Seq<char>, Seq<char>)>, key: Seq<char>) -> Seq<
    (Seq<char>, Seq<char>),
> {
    match key_index(keys_of(entries), key) {
        Some(at) => spec_promoted(entries, at),
        None => entries,
    }
}

/// The entries after `text` was put under `key` into a cache of at most
/// `limit` entries. The entry comes to the front. Where the key was held its
/// old entry goes; where it was not and the cache is full, the last entry
/// goes.
pub open spec fn spec_after_put(
    entries: Seq<(Seq<char>, Seq<char>)>,
    limit: nat,
    key: Seq<char>,
    text: Seq<char>,
) -> Seq<(Seq<char>, Seq<char>)> {
    match key_index(keys_of(entries), key) {
        Some(at) => seq![(key, text)] + entries.remove(at),
        None => if entries.len() == limit {
            seq![(key, text)] + entries.drop_last()
        } else {
            seq![(key, text)] + entries
        },
    }
}

/// The largest limit that a cache is made with.
pub const MAX_CACHE_CAPACITY: usize = 1_000_000;

/// Calls `LruCache::new`, which is taken to give an empty cache with the
/// limit asked for. The limit must not be zero, and it is kept small enough
/// for the table that the cache reserves at once.
#[verifier::external_body]
pub(crate) fn cache_new(limit: usize) -> (cache: LruCache<String, String>)
    requires
        0 < limit <= MAX_CACHE_CAPACITY,
    ensures
        cache_entries(cache) == Seq::<(Seq<char>, Seq<char>)>::empty(),
        cache_limit(cache) == limit,
{
    LruCache::new(NonZeroUsize::new(limit).unwrap())
}

/// Calls `LruCache::get`, which is taken to return the text held under `key`
/// and to move that entry to the front; a cache without the key is left as
/// it is.
#[verifier::external_body]
pub(crate) fn cache_get(cache: &mut LruCache<String, String>, key: &str) -> (found: Option<String>)
    ensures
        opt_text(found) == assoc(cache_entries(*old(cache)), key@),
        cache_entries(*final(cache)) == spec_after_get(cache_entries(*old(cache)), key@),
        cache_limit(*final(cache)) == cache_limit(*old(cache)),
{
    cache.get(key).cloned()
}

/// Calls `LruCache::put`, which is taken to put the entry at the front, in
/// place of the entry that had the key, or else, where the cache is full, of
/// the entry used least recently.
#[verifier::external_body]
pub(crate) fn cache_put(cache: &mut LruCache<String, String>, key: String, text: String)
    ensures
        cache_entries(*final(cache)) == spec_after_put(
            cache_entries(*old(cache)),
            cache_limit(*old(cache)),
            key@,
            text@,
        ),
        cache_limit(*final(cache)) == cache_limit(*old(cache)),
{
    cache.put(key, text);
}

/// Calls `LruCache::clear`, which is taken to remove every entry and to keep
/// the limit.
#[verifier::external_body]
pub(crate) fn cache_clear(cache: &mut LruCache<String, String>)
    ensures
        cache_entries(*final(cache)) == Seq::<(Seq<char>, Seq<char>)>::empty(),
        cache_limit(*final(cache)) == cache_limit(*old(cache)),
{
    cache.clear();
}

/// Calls `LruCache::iter`, which is taken to visit the entries from the one
/// used most recently to the one used least recently, and copies each key.
#[verifier::external_body]
pub(crate) fn cache_keys(cache: &LruCache<String, String>) -> (keys: Vec<String>)
    ensures
        texts_view(keys@) == keys_of(cache_entries(*cache)),
{
    cache.iter().map(|(key, _)| key.clone()).collect()
}

/// Calls `LruCache::len`, which is taken to count the entries.
#[verifier::external_body]
pub(crate) fn cache_len(cache: &LruCache<String, String>) -> (count: usize)
    ensures
        count == cache_entries(*cache).len(),
{
    cache.len()
}

} // verus!
