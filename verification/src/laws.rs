//! What holds of the library as a whole, proved over the spec functions that
//! the contracts of its functions are stated in.

use crate::engine::regex_compiles;
use crate::rewrite::rewritten;
use crate::rewrite::steps_for;
use crate::rewrite::Direction;
use crate::rewrite::StepView;
use crate::store::admitted;
use crate::store::holds;
use crate::store::CachedPattern;
use crate::stream::absorbed;
use crate::stream::coherent;
use crate::stream::delivered;
use crate::stream::drain_len;
use crate::stream::drained;
use crate::stream::filled;
use crate::stream::fits;
use crate::stream::pull_action;
use crate::stream::pull_state;
use crate::stream::push_output;
use crate::stream::push_state;
use crate::stream::reply_len;
use crate::stream::reports_end;
use crate::stream::transformed;
use crate::stream::Phase;
use crate::stream::PullResult;
use crate::stream::PushAction;
use crate::stream::RewriterView;
use crate::vmod::after_registration;
use crate::vmod::captured;
use crate::vmod::matched;
use crate::vmod::replaced;
use vstd::prelude::*;

verus! {

/// A pattern that does not compile fails in silence: it matches no text,
/// captures nothing, replaces nothing whatever the replacement and the limit,
/// and registers no step.
pub proof fn lemma_invalid_pattern_is_silent(
    text: Seq<u8>,
    pattern: Seq<char>,
    replacement: Seq<u8>,
    limit: int,
    waiting: Seq<StepView>,
    direction: Direction,
)
    requires
        !regex_compiles(pattern),
    ensures
        !matched(text, pattern),
        captured(text, pattern) is None,
        replaced(text, pattern, replacement, limit) == text,
        after_registration(waiting, direction, pattern, replacement, limit) == waiting,
{
}

/// A limit that is zero or negative asks for every match to be replaced: all
/// such limits give what the limit 0 gives.
pub proof fn lemma_nonpositive_limit_is_unlimited(
    text: Seq<u8>,
    pattern: Seq<char>,
    replacement: Seq<u8>,
    limit: int,
)
    requires
        limit <= 0,
    ensures
        replaced(text, pattern, replacement, limit) == replaced(text, pattern, replacement, 0),
{
}

/// Without a step for its leg, rewriting gives the body back byte for byte,
/// the empty body too.
pub proof fn lemma_no_steps_is_identity(steps: Seq<StepView>, direction: Direction, body: Seq<u8>)
    requires
        steps_for(steps, direction).len() == 0,
    ensures
        rewritten(steps, direction, body) == body,
    decreases steps.len(),
{
    if steps.len() > 0 {
        lemma_no_steps_is_identity(steps.drop_last(), direction, body);
    }
}

/// A rewriter without steps hands on exactly what it received: pushed, the
/// bytes of all chunks in one piece with the last; pulled, a buffer to drain
/// that holds those bytes.
pub proof fn lemma_passthrough_reproduces_input(pre: RewriterView, chunk: Seq<u8>)
    requires
        pre.phase == Phase::Buffering,
        steps_for(pre.steps, pre.direction).len() == 0,
    ensures
        push_output(pre, PushAction::End, chunk) == Some(pre.buffer + chunk),
        transformed(absorbed(pre, chunk)).buffer == pre.buffer + chunk,
{
    lemma_no_steps_is_identity(pre.steps, pre.direction, pre.buffer + chunk);
}

/// Claiming the steps of a leg and applying them gives what applying the whole
/// list on that leg gives.
pub proof fn lemma_claimed_steps_rewrite_alike(
    steps: Seq<StepView>,
    direction: Direction,
    body: Seq<u8>,
)
    ensures
        rewritten(steps_for(steps, direction), direction, body) == rewritten(
            steps,
            direction,
            body,
        ),
    decreases steps.len(),
{
    if steps.len() > 0 {
        lemma_claimed_steps_rewrite_alike(steps.drop_last(), direction, body);
        if steps.last().direction == direction {
            let claimed = steps_for(steps, direction);
            assert(claimed.drop_last() =~= steps_for(steps.drop_last(), direction));
            assert(claimed.last() == steps.last());
        }
    }
}

/// A step bound to one leg is nothing to the other: registering it changes
/// neither the steps that wait for the other leg nor what the other leg's
/// body is rewritten to.
pub proof fn lemma_other_leg_has_no_effect(
    steps: Seq<StepView>,
    step: StepView,
    direction: Direction,
    body: Seq<u8>,
)
    requires
        step.direction != direction,
    ensures
        steps_for(steps.push(step), direction) == steps_for(steps, direction),
        rewritten(steps.push(step), direction, body) == rewritten(steps, direction, body),
{
    assert(steps.push(step).drop_last() =~= steps);
}

/// A step goes behind the steps of its own leg that wait, which keep their
/// order.
pub proof fn lemma_registration_keeps_order(steps: Seq<StepView>, step: StepView)
    ensures
        steps_for(steps.push(step), step.direction) == steps_for(steps, step.direction).push(step),
{
    assert(steps.push(step).drop_last() =~= steps);
}

/// A registration with a pattern that does not compile is as if it had never
/// been made: what was registered before it stays as it was, and what is
/// registered after it lands where it would have landed without it.
pub proof fn lemma_invalid_registration_changes_nothing(
    before: Seq<StepView>,
    direction: Direction,
    pattern: Seq<char>,
    replacement: Seq<u8>,
    limit: int,
    next_direction: Direction,
    next_pattern: Seq<char>,
    next_replacement: Seq<u8>,
    next_limit: int,
)
    requires
        !regex_compiles(pattern),
    ensures
        after_registration(before, direction, pattern, replacement, limit) == before,
        after_registration(
            after_registration(before, direction, pattern, replacement, limit),
            next_direction,
            next_pattern,
            next_replacement,
            next_limit,
        ) == after_registration(
            before,
            next_direction,
            next_pattern,
            next_replacement,
            next_limit,
        ),
{
}

/// A pull never speaks of more bytes than the caller's buffer holds.
pub proof fn lemma_pull_fits_buffer(pre: RewriterView, buf: Seq<u8>, upstream: Option<PullResult>)
    requires
        coherent(pre),
        fits(upstream, buf.len()),
        buf.len() <= usize::MAX,
    ensures
        reply_len(pull_action(pre, buf, upstream)) <= buf.len(),
{
}

/// The end of the body is reported by the pull that hands out the last byte
/// of the rewritten body, and by no pull before it: a rewriter that is not
/// yet done reports the end exactly when the pull leaves it done, and that is
/// exactly when the cursor has reached the end of the buffer.
pub proof fn lemma_end_reported_on_exhaustion(
    pre: RewriterView,
    buf: Seq<u8>,
    upstream: Option<PullResult>,
)
    requires
        coherent(pre),
        fits(upstream, buf.len()),
        pre.phase != Phase::Done,
    ensures
        coherent(pull_state(pre, buf, upstream)),
        reports_end(pull_action(pre, buf, upstream)) <==> pull_state(pre, buf, upstream).phase
            == Phase::Done,
        reports_end(pull_action(pre, buf, upstream)) ==> pull_state(pre, buf, upstream).cursor
            == pull_state(pre, buf, upstream).buffer.len(),
        pull_state(pre, buf, upstream).phase == Phase::Draining ==> pull_state(
            pre,
            buf,
            upstream,
        ).cursor < pull_state(pre, buf, upstream).buffer.len(),
{
}

/// Each pull of a draining rewriter hands out the bytes that follow those
/// handed out before, so that a rewriter that is done has handed out the
/// whole rewritten body, in order.
pub proof fn lemma_drain_hands_out_in_order(pre: RewriterView, buf: Seq<u8>)
    requires
        coherent(pre),
        pre.phase == Phase::Draining,
    ensures
        delivered(drained(pre, buf.len())) == delivered(pre) + filled(pre, buf).take(
            drain_len(pre, buf.len()) as int,
        ),
        drained(pre, buf.len()).phase == Phase::Done ==> delivered(drained(pre, buf.len()))
            == pre.buffer,
{
    let room = buf.len();
    let count = drain_len(pre, room);
    let after = drained(pre, room);
    assert(delivered(after) =~= delivered(pre) + filled(pre, buf).take(count as int));
    if after.phase == Phase::Done {
        assert(delivered(after) =~= pre.buffer);
    }
}

/// How far a rewriter has come: buffering, then draining, then at an end.
pub open spec fn progress(phase: Phase) -> nat {
    match phase {
        Phase::Buffering => 0,
        Phase::Draining => 1,
        Phase::Done => 2,
        Phase::Failed => 2,
    }
}

/// A rewriter never goes back: no pull and no push returns it to an earlier
/// phase, so a body is rewritten once, and a rewriter that is done or has
/// failed stays as it is.
pub proof fn lemma_phases_only_advance(
    pre: RewriterView,
    buf: Seq<u8>,
    upstream: Option<PullResult>,
    action: PushAction,
    chunk: Seq<u8>,
)
    ensures
        progress(pull_state(pre, buf, upstream).phase) >= progress(pre.phase),
        progress(push_state(pre, action, chunk).phase) >= progress(pre.phase),
        progress(pre.phase) == 2 ==> pull_state(pre, buf, upstream) == pre && push_state(
            pre,
            action,
            chunk,
        ) == pre,
{
}

/// A full store makes room for a new pattern by letting go of the least
/// recently used one and of no other: the new pattern goes to the front and
/// every other pattern moves one place back.
pub proof fn lemma_eviction_takes_the_least_recent(
    entries: Seq<CachedPattern>,
    capacity: nat,
    entry: CachedPattern,
)
    requires
        1 <= capacity,
        entries.len() == capacity,
    ensures
        admitted(entries, capacity, entry).len() == capacity,
        admitted(entries, capacity, entry)[0] == entry,
        forall|k: int|
            0 <= k < capacity - 1 ==> admitted(entries, capacity, entry)[k + 1] == #[trigger] entries[k],
        !holds(entries.drop_last(), entries.last().pattern) && entry.pattern
            != entries.last().pattern ==> !holds(
            admitted(entries, capacity, entry),
            entries.last().pattern,
        ),
{
    let after = admitted(entries, capacity, entry);
    let gone = entries.last().pattern;
    if !holds(entries.drop_last(), gone) && entry.pattern != gone {
        if holds(after, gone) {
            let i = choose|i: int| 0 <= i < after.len() && (#[trigger] after[i]).pattern == gone;
            assert(i > 0);
            assert(entries.drop_last()[i - 1].pattern == gone);
        }
    }
}

/// A failure takes its place in the store as a matcher does: where a new
/// pattern goes, and which pattern leaves for it, does not depend on whether
/// it compiled.
pub proof fn lemma_failures_take_a_slot(
    entries: Seq<CachedPattern>,
    capacity: nat,
    pattern: Seq<char>,
    message: Seq<char>,
)
    ensures
        admitted(entries, capacity, CachedPattern { pattern, error: Some(message) }).len()
            == admitted(entries, capacity, CachedPattern { pattern, error: None }).len(),
        admitted(entries, capacity, CachedPattern { pattern, error: Some(message) }).skip(1)
            == admitted(entries, capacity, CachedPattern { pattern, error: None }).skip(1),
        admitted(entries, capacity, CachedPattern { pattern, error: Some(message) })[0].pattern
            == pattern,
{
    let failed = admitted(entries, capacity, CachedPattern { pattern, error: Some(message) });
    let compiled = admitted(entries, capacity, CachedPattern { pattern, error: None });
    assert(failed.skip(1) =~= compiled.skip(1));
}

} // verus!
