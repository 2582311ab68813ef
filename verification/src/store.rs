//! The bounded store of compiled patterns.
//!
//! A store maps pattern text to what compiling it gave: a matcher, or the
//! message of the failure. It holds at most `capacity` patterns and lets the
//! least recently used one go when a new one needs the room. Failures are kept
//! like matchers, so that a malformed pattern is compiled once however often
//! it is asked for.

use crate::cache::cache_capacity;
use crate::cache::cache_entries;
use crate::cache::cache_get;
use crate::cache::cache_keys;
use crate::cache::cache_put;
use crate::cache::cache_resize;
use crate::cache::cache_unbounded;
use crate::cache::has_key;
use crate::cache::key_at;
use crate::cache::outcome_view;
use crate::cache::with_front;
use crate::cache::with_new;
use crate::cache::Entry;
use crate::engine::compile;
use crate::engine::regex_compiles;
use crate::engine::Matcher;
use crate::limits::clamp_i64_to_usize;
use crate::limits::clamp_to_usize;
use lru::LruCache;
use vstd::prelude::*;

verus! {

/// One pattern of a store, as contracts see it.
pub ghost struct CachedPattern {
    /// The pattern text.
    pub pattern: Seq<char>,
    /// The message of the compile failure, or `None` where a matcher is kept.
    pub error: Option<Seq<char>>,
}

/// What a lookup returned, reduced to the failure message.
pub open spec fn error_of(outcome: Result<Matcher, String>) -> Option<Seq<char>> {
    match outcome {
        Ok(_) => None,
        Err(message) => Some(message@),
    }
}

/// Whether `pattern` is among `entries`.
pub open spec fn holds(entries: Seq<CachedPattern>, pattern: Seq<char>) -> bool {
    exists|i: int| 0 <= i < entries.len() && (#[trigger] entries[i]).pattern == pattern
}

/// The place of `pattern` among `entries`, where it is there.
pub open spec fn index_of(entries: Seq<CachedPattern>, pattern: Seq<char>) -> int {
    choose|i: int| 0 <= i < entries.len() && (#[trigger] entries[i]).pattern == pattern
}

/// `entries` after the one at `i` was used: it moves to the front.
pub open spec fn promoted(entries: Seq<CachedPattern>, i: int) -> Seq<CachedPattern> {
    seq![entries[i]] + entries.remove(i)
}

/// `entries` after `entry` was added to a store of `capacity` patterns: it
/// goes to the front, and from a full store the last entry leaves.
pub open spec fn admitted(entries: Seq<CachedPattern>, capacity: nat, entry: CachedPattern) -> Seq<
    CachedPattern,
> {
    if entries.len() >= capacity {
        seq![entry] + entries.drop_last()
    } else {
        seq![entry] + entries
    }
}

/// What holds of the patterns of every store: there are no more than
/// `capacity` of them, none twice, and each has the outcome that compiling it
/// gives.
pub open spec fn consistent(entries: Seq<CachedPattern>, capacity: nat) -> bool {
    &&& 1 <= capacity <= usize::MAX
    &&& entries.len() <= capacity
    &&& forall|i: int, j: int|
        0 <= i < j < entries.len() ==> (#[trigger] entries[i]).pattern != (
        #[trigger] entries[j]).pattern
    &&& forall|i: int|
        0 <= i < entries.len() ==> ((#[trigger] entries[i]).error is None <==> regex_compiles(
            entries[i].pattern,
        ))
}

/// The capacity of a store that was asked to hold `cache_size` patterns.
pub open spec fn capacity_for(cache_size: int) -> nat {
    if clamp_to_usize(cache_size) < 1 {
        1
    } else {
        clamp_to_usize(cache_size) as nat
    }
}

/// A cache entry as a store shows it.
spec fn entry_of(raw: Entry) -> CachedPattern {
    CachedPattern {
        pattern: raw.0,
        error: match raw.1 {
            Ok(_) => None,
            Err(message) => Some(message),
        },
    }
}

/// The entries of a cache as a store shows them.
spec fn entries_of(raw: Seq<Entry>) -> Seq<CachedPattern> {
    raw.map_values(|one: Entry| entry_of(one))
}

/// A matcher is kept under the pattern it was compiled from.
spec fn keyed(one: Entry) -> bool {
    one.1 matches Ok(source) ==> source == one.0
}

/// What a store keeps true of its cache.
spec fn sound(raw: Seq<Entry>, capacity: nat) -> bool {
    &&& consistent(entries_of(raw), capacity)
    &&& forall|i: int| 0 <= i < raw.len() ==> keyed(#[trigger] raw[i])
}

/// Where the entry at `k` of `with_front(raw, i, raw[i])` stood in `raw`.
spec fn origin(i: int, k: int) -> int {
    if k == 0 {
        i
    } else if k <= i {
        k - 1
    } else {
        k
    }
}

/// A sound cache stays sound when an entry moves to the front, and the store
/// shows the move as a promotion.
proof fn lemma_found(raw: Seq<Entry>, capacity: nat, i: int)
    requires
        sound(raw, capacity),
        0 <= i < raw.len(),
    ensures
        holds(entries_of(raw), raw[i].0),
        index_of(entries_of(raw), raw[i].0) == i,
        sound(with_front(raw, i, raw[i]), capacity),
        entries_of(with_front(raw, i, raw[i])) == promoted(entries_of(raw), i),
        entries_of(raw)[i] == entry_of(raw[i]),
        keyed(raw[i]),
        raw[i].1 is Ok == regex_compiles(raw[i].0),
{
    let before = entries_of(raw);
    let moved = with_front(raw, i, raw[i]);
    let after = entries_of(moved);
    assert(before[i].pattern == raw[i].0);
    let j = index_of(before, raw[i].0);
    assert(before[j].pattern == before[i].pattern);
    assert(j == i);
    assert(after =~= promoted(before, i));
    assert forall|a: int| 0 <= a < moved.len() implies #[trigger] moved[a] == raw[origin(i, a)] by {}
    assert forall|a: int, b: int| 0 <= a < b < after.len() implies (#[trigger] after[a]).pattern != (
    #[trigger] after[b]).pattern by {
        assert(after[a] == before[origin(i, a)]);
        assert(after[b] == before[origin(i, b)]);
        assert(origin(i, a) != origin(i, b));
    }
    assert forall|a: int| 0 <= a < after.len() implies ((#[trigger] after[a]).error is None
        <==> regex_compiles(after[a].pattern)) by {
        assert(after[a] == before[origin(i, a)]);
    }
    assert forall|a: int| 0 <= a < moved.len() implies keyed(#[trigger] moved[a]) by {
        assert(moved[a] == raw[origin(i, a)]);
    }
}

/// A cache has a key exactly when the store shows a pattern of that text.
proof fn lemma_same_keys(raw: Seq<Entry>, key: Seq<char>)
    ensures
        has_key(raw, key) == holds(entries_of(raw), key),
{
    let entries = entries_of(raw);
    if has_key(raw, key) {
        let i = choose|i: int| key_at(raw, key, i);
        assert(entries[i].pattern == key);
    }
    if holds(entries, key) {
        let i = index_of(entries, key);
        assert(key_at(raw, key, i));
    }
}

/// A sound cache stays sound when the outcome of compiling a new key is put
/// into it, and the store shows it as admitted.
proof fn lemma_added(raw: Seq<Entry>, capacity: nat, one: Entry)
    requires
        sound(raw, capacity),
        !has_key(raw, one.0),
        keyed(one),
        one.1 is Ok == regex_compiles(one.0),
    ensures
        sound(with_new(raw, capacity, one), capacity),
        entries_of(with_new(raw, capacity, one)) == admitted(
            entries_of(raw),
            capacity,
            entry_of(one),
        ),
{
    let before = entries_of(raw);
    let grown = with_new(raw, capacity, one);
    let after = entries_of(grown);
    assert(after =~= admitted(before, capacity, entry_of(one)));
    assert forall|a: int| 0 <= a < grown.len() implies keyed(#[trigger] grown[a]) by {
        if a > 0 {
            assert(grown[a] == raw[a - 1]);
        }
    }
    assert forall|a: int| 0 <= a < after.len() implies ((#[trigger] after[a]).error is None
        <==> regex_compiles(after[a].pattern)) by {
        if a > 0 {
            assert(after[a] == before[a - 1]);
        }
    }
    assert forall|a: int, b: int| 0 <= a < b < after.len() implies (#[trigger] after[a]).pattern != (
    #[trigger] after[b]).pattern by {
        assert(after[b] == before[b - 1]);
        if a == 0 {
            assert(!key_at(raw, one.0, b - 1));
        } else {
            assert(after[a] == before[a - 1]);
        }
    }
}

/// A bounded cache of compiled patterns, least recently used out first.
#[derive(Debug)]
pub struct PatternStore {
    cache: LruCache<String, Result<Matcher, String>>,
}

impl PatternStore {
    /// The patterns held, most recently used first.
    pub closed spec fn entries(&self) -> Seq<CachedPattern> {
        entries_of(cache_entries(self.cache))
    }

    /// The number of patterns the store holds at most.
    pub closed spec fn capacity(&self) -> nat {
        cache_capacity(self.cache)
    }

    #[verifier::type_invariant]
    spec fn well_formed(self) -> bool {
        sound(cache_entries(self.cache), cache_capacity(self.cache))
    }

    /// An empty store for `cache_size` patterns. A size below 1 counts as 1,
    /// one above `usize::MAX` as `usize::MAX`.
    pub fn new(cache_size: i64) -> (store: PatternStore)
        ensures
            store.entries() == Seq::<CachedPattern>::empty(),
            store.capacity() == capacity_for(cache_size as int),
            consistent(store.entries(), store.capacity()),
    {
        let wanted = clamp_i64_to_usize(cache_size);
        let capacity: usize = if wanted < 1 {
            1
        } else {
            wanted
        };
        // Made without a bound and then bounded: no table is allocated for
        // room that may never be used, and no capacity is too large.
        let mut cache = cache_unbounded();
        cache_resize(&mut cache, capacity);
        PatternStore { cache }
    }

    /// The outcome of compiling `res`, from the store where it is there and
    /// from the engine where it is not.
    ///
    /// A pattern that is found becomes the most recently used, and what was
    /// kept for it is returned, a failure with its message. A pattern that is
    /// not found is compiled and added, whatever the outcome, and where the
    /// store was full the least recently used pattern leaves.
    pub fn get_regex(&mut self, res: &str) -> (outcome: Result<Matcher, String>)
        ensures
            outcome is Ok == regex_compiles(res@),
            outcome matches Ok(matcher) ==> matcher@ == res@,
            final(self).capacity() == old(self).capacity(),
            consistent(final(self).entries(), final(self).capacity()),
            final(self).entries().len() >= 1 && final(self).entries()[0].pattern == res@,
            holds(old(self).entries(), res@) ==> final(self).entries() == promoted(
                old(self).entries(),
                index_of(old(self).entries(), res@),
            ) && error_of(outcome) == old(self).entries()[index_of(old(self).entries(), res@)].error,
            !holds(old(self).entries(), res@) ==> final(self).entries() == admitted(
                old(self).entries(),
                old(self).capacity(),
                CachedPattern { pattern: res@, error: error_of(outcome) },
            ),
    {
        proof {
            use_type_invariant(&*self);
        }
        let ghost raw = cache_entries(self.cache);
        let ghost capacity = cache_capacity(self.cache);
        proof {
            lemma_same_keys(raw, res@);
            assert forall|i: int| #[trigger] key_at(raw, res@, i) implies {
                &&& sound(with_front(raw, i, raw[i]), capacity)
                &&& entries_of(with_front(raw, i, raw[i])) == promoted(entries_of(raw), i)
                &&& index_of(entries_of(raw), res@) == i
                &&& entries_of(raw)[i] == entry_of(raw[i])
                &&& keyed(raw[i])
                &&& raw[i].1 is Ok == regex_compiles(res@)
            } by {
                lemma_found(raw, capacity, i);
            }
        }
        match cache_get(&mut self.cache, res) {
            Some(kept) => {
                match kept {
                    Ok(matcher) => Ok(matcher.duplicate()),
                    Err(message) => Err(message.clone()),
                }
            },
            None => {
                let outcome = match compile(res) {
                    Ok(matcher) => Ok(matcher),
                    Err(e) => Err(e.to_string()),
                };
                let kept = match &outcome {
                    Ok(matcher) => Ok(matcher.duplicate()),
                    Err(message) => Err(message.clone()),
                };
                proof {
                    lemma_added(raw, capacity, (res@, outcome_view(kept)));
                }
                cache_put(&mut self.cache, res.to_owned(), kept);
                outcome
            },
        }
    }

    /// The patterns held, most recently used first.
    pub fn cached_patterns(&self) -> (patterns: Vec<String>)
        ensures
            patterns@.len() == self.entries().len(),
            forall|i: int|
                0 <= i < patterns@.len() ==> (#[trigger] patterns@[i])@ == self.entries()[i].pattern,
            patterns@.len() <= self.capacity(),
    {
        proof {
            use_type_invariant(self);
        }
        cache_keys(&self.cache)
    }
}

} // verus!
