//! The operations that policy code calls.
//!
//! An [`init`] is one pattern store behind a lock, shared by all the
//! transactions that run at the same time. Every operation takes the pattern
//! as text and goes to the store for its matcher, so that a pattern is
//! compiled once however often it is used.
//!
//! A pattern that does not compile is never an error here: a match is then
//! `false`, a replacement gives the text back as it was, and a rewrite step is
//! not registered.

use crate::captures::bytes_of;
use crate::captures::coalesce;
use crate::captures::group_of;
use crate::captures::joined;
use crate::captures::named_group_of;
use crate::captures::Captures;
use crate::captures::CapturesView;
use crate::engine::regex_captures;
use crate::engine::regex_compiles;
use crate::engine::regex_group_names;
use crate::engine::regex_is_match;
use crate::engine::regex_replacen;
use crate::engine::Matcher;
use crate::limits::clamp_i64_to_usize;
use crate::limits::clamp_to_usize;
use crate::rewrite::leg_of;
use crate::rewrite::waiting;
use crate::rewrite::Direction;
use crate::rewrite::RewriteStep;
use crate::rewrite::RewriteStepRegistry;
use crate::rewrite::StepView;
use crate::store::capacity_for;
use crate::store::PatternStore;
use vstd::prelude::*;
use vstd::rwlock::RwLock;
use vstd::rwlock::RwLockPredicate;
use vstd::string::StringSliceAdditionalSpecFns;

verus! {

/// What the lock of an [`init`] admits: a store of one fixed capacity.
pub ghost struct StoreOfCapacity {
    /// The capacity.
    pub capacity: nat,
}

impl RwLockPredicate<PatternStore> for StoreOfCapacity {
    open spec fn inv(self, store: PatternStore) -> bool {
        store.capacity() == self.capacity
    }
}

/// Whether `pattern` compiles and matches somewhere in `text`.
pub open spec fn matched(text: Seq<u8>, pattern: Seq<char>) -> bool {
    regex_compiles(pattern) && regex_is_match(pattern, text)
}

/// `text` with the matches of `pattern` replaced by `replacement`: the first
/// `limit` of them, or all of them where `limit` is 0 or negative. A pattern
/// that does not compile leaves `text` as it is.
pub open spec fn replaced(text: Seq<u8>, pattern: Seq<char>, replacement: Seq<u8>, limit: int) -> Seq<u8> {
    if regex_compiles(pattern) {
        regex_replacen(pattern, text, clamp_to_usize(limit) as usize, replacement)
    } else {
        text
    }
}

/// What a capture of `pattern` in `text` stores: `None` where the pattern does
/// not compile or does not match.
pub open spec fn captured(text: Seq<u8>, pattern: Seq<char>) -> Option<CapturesView> {
    if regex_compiles(pattern) && regex_captures(pattern, text) is Some {
        Some(
            CapturesView {
                text,
                spans: regex_captures(pattern, text)->0,
                names: regex_group_names(pattern),
            },
        )
    } else {
        None
    }
}

/// The capture set in a transaction's slot, as contracts see it.
pub open spec fn slot_view(slot: Option<Box<Captures>>) -> Option<CapturesView> {
    match slot {
        Some(captures) => Some(captures@),
        None => None,
    }
}

/// The step that a registration asks for.
pub open spec fn step_of(
    direction: Direction,
    pattern: Seq<char>,
    replacement: Seq<u8>,
    limit: int,
) -> StepView {
    StepView { direction, pattern, replacement, limit: clamp_to_usize(limit) as usize }
}

/// The steps that wait after a registration: with the new step behind the
/// others where its pattern compiles, and as before where it does not.
pub open spec fn after_registration(
    before: Seq<StepView>,
    direction: Direction,
    pattern: Seq<char>,
    replacement: Seq<u8>,
    limit: int,
) -> Seq<StepView> {
    if regex_compiles(pattern) {
        before.push(step_of(direction, pattern, replacement, limit))
    } else {
        before
    }
}

/// Why a capture on a request body could not be tried.
#[derive(Clone, Copy, Debug, PartialEq, Eq, Structural)]
pub enum CaptureError {
    /// The host never buffered the request body.
    MissingPrebufferedBody,
}

/// Why a rewrite step was not registered.
#[derive(Debug)]
pub enum RegisterError {
    /// The pattern does not compile. The step is dropped, and the engine's
    /// message is there to be logged.
    InvalidPattern(String),
    /// The transaction has no storage to keep the step in. The transaction
    /// cannot go on.
    ResourceExhausted,
}

/// A store of compiled patterns that many transactions share.
#[allow(non_camel_case_types)]
pub struct init {
    store: RwLock<PatternStore, StoreOfCapacity>,
}

impl init {
    /// The number of patterns the store holds at most.
    pub closed spec fn capacity(&self) -> nat {
        self.store.pred().capacity
    }

    /// A store for `cache_size` patterns. A size below 1 counts as 1.
    pub fn new(cache_size: i64) -> (made: init)
        ensures
            made.capacity() == capacity_for(cache_size as int),
    {
        let store = PatternStore::new(cache_size);
        let ghost admits = StoreOfCapacity { capacity: store.capacity() };
        init { store: RwLock::new(store, Ghost(admits)) }
    }

    /// The outcome of compiling `res`: its matcher, or the message of the
    /// failure. The store is locked for the whole of the lookup, and of the
    /// compilation where there is one.
    pub fn get_regex(&self, res: &str) -> (outcome: Result<Matcher, String>)
        ensures
            outcome is Ok == regex_compiles(res@),
            outcome matches Ok(matcher) ==> matcher@ == res@,
    {
        let (mut store, handle) = self.store.acquire_write();
        let outcome = store.get_regex(res);
        handle.release_write(store);
        outcome
    }

    /// Whether `res` matches somewhere in `s`; `false` where `res` does not
    /// compile.
    pub fn is_match(&self, s: &str, res: &str) -> (found: bool)
        ensures
            found == matched(s.spec_bytes(), res@),
            !regex_compiles(res@) ==> !found,
    {
        match self.get_regex(res) {
            Ok(matcher) => matcher.is_match(s.as_bytes()),
            Err(_) => false,
        }
    }

    /// `haystack` with the matches of `res` replaced by `sub`: the first
    /// `limit` of them, or all of them where `limit` is 0 or negative. In
    /// `sub`, `$1` or `$name` stands for what a group matched. Where `res`
    /// does not compile, the result is `haystack`.
    pub fn replace(&self, haystack: &[u8], res: &str, sub: &str, limit: i64) -> (text: Vec<u8>)
        ensures
            text@ == replaced(haystack@, res@, sub.spec_bytes(), limit as int),
            !regex_compiles(res@) ==> text@ == haystack@,
            limit <= 0 ==> text@ == replaced(haystack@, res@, sub.spec_bytes(), 0),
            regex_compiles(res@) && !regex_is_match(res@, haystack@) ==> text@ == haystack@,
    {
        match self.get_regex(res) {
            Ok(matcher) => {
                match matcher.replacen(haystack, clamp_i64_to_usize(limit), sub.as_bytes()) {
                    Some(text) => text,
                    None => copy_of(haystack),
                }
            },
            Err(_) => copy_of(haystack),
        }
    }

    /// Matches `res` against `s` and keeps the capture groups in `vp`.
    ///
    /// Whatever `vp` held is dropped first. Where `res` compiles and matches,
    /// `vp` then holds the groups of the leftmost match with a copy of `s`,
    /// and the result is `true`. Otherwise `vp` stays empty and the result is
    /// `false`.
    pub fn capture(&self, vp: &mut Option<Box<Captures>>, s: &str, res: &str) -> (found: bool)
        ensures
            slot_view(*final(vp)) == captured(s.spec_bytes(), res@),
            found == (*final(vp) is Some),
            found == matched(s.spec_bytes(), res@),
    {
        *vp = None;
        match self.get_regex(res) {
            Ok(matcher) => keep(vp, Captures::of(&matcher, copy_of(s.as_bytes()))),
            Err(_) => false,
        }
    }

    /// As [`init::capture`], on a request body that the host has buffered and
    /// hands over as the chunks it is held in, or as `None` where it was never
    /// buffered.
    ///
    /// The chunks are joined into one text, and that text goes into `vp` with
    /// the groups where `res` matches it. A body that was never buffered is an
    /// error, unless `res` does not compile: then the result is `false` as for
    /// any other text.
    pub fn capture_req_body(
        &self,
        vp: &mut Option<Box<Captures>>,
        body: Option<&[&[u8]]>,
        res: &str,
    ) -> (outcome: Result<bool, CaptureError>)
        ensures
            outcome is Err <==> regex_compiles(res@) && body is None,
            outcome matches Err(e) ==> e == CaptureError::MissingPrebufferedBody,
            outcome matches Ok(found) ==> found == (*final(vp) is Some),
            slot_view(*final(vp)) == match body {
                Some(chunks) => captured(joined(chunks@), res@),
                None => None,
            },
    {
        *vp = None;
        let matcher = match self.get_regex(res) {
            Ok(matcher) => matcher,
            Err(_) => {
                return Ok(false);
            },
        };
        match body {
            Some(chunks) => Ok(keep(vp, Captures::of(&matcher, coalesce(chunks)))),
            None => Err(CaptureError::MissingPrebufferedBody),
        }
    }

    /// The bytes of group `n` of the capture set in `vp`; group 0 is the whole
    /// match. `None` where `vp` is empty, where there is no group `n`, and
    /// where the group took no part in the match.
    pub fn group<'a>(&self, vp: &'a Option<Box<Captures>>, n: i64) -> (group: Option<&'a [u8]>)
        ensures
            bytes_of(group) == match slot_view(*vp) {
                Some(captures) => group_of(captures, n as int),
                None => None,
            },
    {
        if n < 0 {
            return None;
        }
        match vp {
            Some(captures) => captures.group(clamp_i64_to_usize(n)),
            None => None,
        }
    }

    /// The bytes of the group called `name` of the capture set in `vp`.
    /// `None` where `vp` is empty, where no group has that name, and where the
    /// group took no part in the match.
    pub fn named_group<'a>(&self, vp: &'a Option<Box<Captures>>, name: &str) -> (group: Option<
        &'a [u8],
    >)
        ensures
            bytes_of(group) == match slot_view(*vp) {
                Some(captures) => named_group_of(captures, name@),
                None => None,
            },
    {
        match vp {
            Some(captures) => captures.named_group(name),
            None => None,
        }
    }

    /// Registers a substitution for the body of the current transaction, on
    /// the leg that the calling policy code belongs to: see
    /// [`Direction::of_task`]. The rest is [`init::replace_body`].
    pub fn replace_resp_body(
        &self,
        slot: Option<&mut Option<Box<RewriteStepRegistry>>>,
        client_side: bool,
        res: &str,
        sub: &str,
        limit: i64,
    ) -> (outcome: Result<(), RegisterError>)
        ensures
            outcome is Ok <==> regex_compiles(res@) && slot is Some,
            outcome matches Err(e) ==> (e is InvalidPattern <==> !regex_compiles(res@)),
            slot matches Some(place) ==> waiting(*final(place)) == after_registration(
                waiting(*place),
                leg_of(client_side),
                res@,
                sub.spec_bytes(),
                limit as int,
            ),
            slot matches Some(place) ==> (*final(place) is Some <==> *place is Some || regex_compiles(
                res@,
            )),
    {
        self.replace_body(slot, res, sub, limit, Direction::of_task(client_side))
    }

    /// Registers a substitution of `sub` for the first `limit` matches of
    /// `res`, or for all of them where `limit` is 0 or negative, on the leg
    /// `dir`.
    ///
    /// `slot` is the place where the transaction keeps its registry, or `None`
    /// where the host could not provide one. A pattern that does not compile
    /// is reported and nothing is registered, whether there is a place or not.
    /// Otherwise a missing place is an error, and with a place the step goes
    /// behind those that wait there, into a new registry if there was none.
    pub fn replace_body(
        &self,
        slot: Option<&mut Option<Box<RewriteStepRegistry>>>,
        res: &str,
        sub: &str,
        limit: i64,
        dir: Direction,
    ) -> (outcome: Result<(), RegisterError>)
        ensures
            outcome is Ok <==> regex_compiles(res@) && slot is Some,
            outcome matches Err(e) ==> (e is InvalidPattern <==> !regex_compiles(res@)),
            slot matches Some(place) ==> waiting(*final(place)) == after_registration(
                waiting(*place),
                dir,
                res@,
                sub.spec_bytes(),
                limit as int,
            ),
            slot matches Some(place) ==> (*final(place) is Some <==> *place is Some || regex_compiles(
                res@,
            )),
    {
        let matcher = match self.get_regex(res) {
            Ok(matcher) => matcher,
            Err(message) => {
                return Err(RegisterError::InvalidPattern(message));
            },
        };
        let place = match slot {
            Some(place) => place,
            None => {
                return Err(RegisterError::ResourceExhausted);
            },
        };
        let step = RewriteStep::new(
            dir,
            matcher,
            copy_of(sub.as_bytes()),
            clamp_i64_to_usize(limit),
        );
        let mut registry = match place.take() {
            Some(registry) => registry,
            None => Box::new(RewriteStepRegistry::new()),
        };
        registry.register(step);
        *place = Some(registry);
        Ok(())
    }
}

/// Puts what a capture found into the slot `vp` and says whether it found
/// anything.
fn keep(vp: &mut Option<Box<Captures>>, made: Option<Captures>) -> (found: bool)
    ensures
        found == made is Some,
        slot_view(*final(vp)) == match made {
            Some(captures) => Some(captures@),
            None => None,
        },
{
    match made {
        Some(captures) => {
            *vp = Some(Box::new(captures));
            true
        },
        None => {
            *vp = None;
            false
        },
    }
}

/// The bytes of `text` in a vector of their own.
fn copy_of(text: &[u8]) -> (copy: Vec<u8>)
    ensures
        copy@ == text@,
{
    let mut copy: Vec<u8> = Vec::new();
    copy.extend_from_slice(text);
    assert(copy@ =~= text@);
    copy
}

} // verus!
