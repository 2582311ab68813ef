//! The least-recently-used map of the `lru` crate, as the library sees it.
//!
//! The map keeps its entries in a list ordered by use. That list, most
//! recently used entry first, is what [`cache_entries`] names. The functions of
//! this module call the crate's methods and say what each does to the list.
//! None of that is proved here: it is what the crate's source shows.

use crate::engine::Matcher;
use lru::LruCache;
use std::num::NonZeroUsize;
use vstd::prelude::*;

verus! {

#[verifier::external_type_specification]
#[verifier::external_body]
#[verifier::reject_recursive_types(K)]
#[verifier::reject_recursive_types(V)]
#[verifier::reject_recursive_types(S)]
pub struct ExLruCache<K, V, S>(lru::LruCache<K, V, S>);

#[verifier::external_type_specification]
#[verifier::external_body]
pub struct ExDefaultHasher(lru::DefaultHasher);

/// A key with its value, as plain text: a matcher stands as its pattern, a
/// failure as its message.
pub type Entry = (Seq<char>, Result<Seq<char>, Seq<char>>);

/// What a cache holds, most recently used first: each key with its value, a
/// matcher by its pattern text and a failure by its message.
pub uninterp spec fn cache_entries(cache: LruCache<String, Result<Matcher, String>>) -> Seq<(Seq<char>, Result<Seq<char>, Seq<char>>)>;

/// The number of entries that a cache holds at most.
pub uninterp spec fn cache_capacity(cache: LruCache<String, Result<Matcher, String>>) -> nat;

/// A cached value as plain text.
pub open spec fn outcome_view(outcome: Result<Matcher, String>) -> Result<Seq<char>, Seq<char>> {
    match outcome {
        Ok(matcher) => Ok(matcher@),
        Err(message) => Err(message@),
    }
}

/// Whether the entry at `i` has the key `key`.
pub open spec fn key_at(entries: Seq<Entry>, key: Seq<char>, i: int) -> bool {
    0 <= i < entries.len() && entries[i].0 == key
}

/// Whether some entry has the key `key`.
pub open spec fn has_key(entries: Seq<Entry>, key: Seq<char>) -> bool {
    exists|i: int| key_at(entries, key, i)
}

/// `entries` without the one at `i`, and with `entry` in front of the rest.
pub open spec fn with_front(entries: Seq<Entry>, i: int, entry: Entry) -> Seq<Entry> {
    seq![entry] + entries.remove(i)
}

/// `entries` with the new `entry` in front, and without their last where
/// there were `capacity` of them.
pub open spec fn with_new(entries: Seq<Entry>, capacity: nat, entry: Entry) -> Seq<Entry> {
    if entries.len() == capacity {
        seq![entry] + entries.drop_last()
    } else {
        seq![entry] + entries
    }
}

/// `entries` cut down to the `capacity` most recently used.
pub open spec fn cut_to(entries: Seq<Entry>, capacity: nat) -> Seq<Entry> {
    if entries.len() <= capacity {
        entries
    } else {
        entries.take(capacity as int)
    }
}

/// What a lookup of `key` that hands out `found` does to the entries. The
/// entry that is found moves to the front; without one nothing changes.
pub open spec fn looked_up(
    before: Seq<Entry>,
    after: Seq<Entry>,
    key: Seq<char>,
    found: Option<Result<Seq<char>, Seq<char>>>,
) -> bool {
    match found {
        Some(value) => exists|i: int|
            #![trigger key_at(before, key, i)]
            key_at(before, key, i) && before[i].1 == value && after == with_front(
                before,
                i,
                before[i],
            ),
        None => !has_key(before, key) && after == before,
    }
}

/// What putting `entry` does to the entries of a cache of `capacity`. An
/// entry with that key is replaced and moves to the front. Without one the
/// new entry goes to the front, and the last entry of a full cache leaves.
pub open spec fn stored(before: Seq<Entry>, capacity: nat, after: Seq<Entry>, entry: Entry) -> bool {
    if has_key(before, entry.0) {
        exists|i: int|
            #![trigger key_at(before, entry.0, i)]
            key_at(before, entry.0, i) && after == with_front(before, i, entry)
    } else {
        after == with_new(before, capacity, entry)
    }
}

/// What a lookup handed out, as plain text.
pub open spec fn found_view(found: Option<&Result<Matcher, String>>) -> Option<
    Result<Seq<char>, Seq<char>>,
> {
    match found {
        Some(outcome) => Some(outcome_view(*outcome)),
        None => None,
    }
}

/// Calls `LruCache::unbounded`, which allocates no table up front: the cache
/// is empty and its capacity is `usize::MAX`.
#[verifier::external_body]
pub(crate) fn cache_unbounded() -> (cache: LruCache<String, Result<Matcher, String>>)
    ensures
        cache_entries(cache).len() == 0,
        cache_capacity(cache) == usize::MAX,
{
    LruCache::unbounded()
}

/// Calls `LruCache::resize`: the capacity becomes `capacity`, and of the
/// entries only the `capacity` most recently used stay.
#[verifier::external_body]
pub(crate) fn cache_resize(cache: &mut LruCache<String, Result<Matcher, String>>, capacity: usize)
    requires
        capacity >= 1,
    ensures
        cache_capacity(*final(cache)) == capacity,
        cache_entries(*final(cache)) == cut_to(cache_entries(*old(cache)), capacity as nat),
{
    cache.resize(NonZeroUsize::new(capacity).unwrap())
}

/// Calls `LruCache::get`: an entry that is found moves to the front of the
/// list and its value is handed out; without one nothing changes. The call
/// does not unwind.
#[verifier::external_body]
pub(crate) fn cache_get<'a>(
    cache: &'a mut LruCache<String, Result<Matcher, String>>,
    key: &str,
) -> (found: Option<&'a Result<Matcher, String>>)
    ensures
        cache_capacity(*final(cache)) == cache_capacity(*old(cache)),
        looked_up(cache_entries(*old(cache)), cache_entries(*final(cache)), key@, found_view(found)),
    no_unwind
{
    cache.get(key)
}

/// Calls `LruCache::put`. A key that is there gets the new value and moves to
/// the front. A new key goes to the front, and where the cache was full the
/// entry at the back leaves. What `put` returns, the value that was replaced,
/// is dropped. The call does not unwind.
#[verifier::external_body]
pub(crate) fn cache_put(
    cache: &mut LruCache<String, Result<Matcher, String>>,
    key: String,
    value: Result<Matcher, String>,
)
    ensures
        cache_capacity(*final(cache)) == cache_capacity(*old(cache)),
        stored(
            cache_entries(*old(cache)),
            cache_capacity(*old(cache)),
            cache_entries(*final(cache)),
            (key@, outcome_view(value)),
        ),
    no_unwind
{
    cache.put(key, value);
}

/// Walks `LruCache::iter`, which goes from the most to the least recently used
/// entry, and copies each key.
#[verifier::external_body]
pub(crate) fn cache_keys(cache: &LruCache<String, Result<Matcher, String>>) -> (keys: Vec<String>)
    ensures
        keys@.len() == cache_entries(*cache).len(),
        forall|i: int| 0 <= i < keys@.len() ==> (#[trigger] keys@[i])@ == cache_entries(*cache)[i].0,
{
    cache.iter().map(|(key, _)| key.clone()).collect()
}

} // verus!
