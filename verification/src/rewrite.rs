//! Rewrite steps and the per-transaction list they wait in.
//!
//! A step is one substitution, bound to one leg of a transaction. Steps wait
//! in a registry in the order in which they were registered, until the
//! rewriter of their leg claims them.

use crate::engine::regex_replacen;
use crate::engine::Matcher;
use vstd::prelude::*;

verus! {

/// The leg of a transaction that a body travels on.
#[derive(Clone, Copy, Debug, PartialEq, Eq, Structural)]
pub enum Direction {
    /// From the upstream source into the proxy; such a body is pulled.
    Fetch,
    /// From the proxy to the downstream client; such a body is pushed.
    Deliver,
}

/// The leg that is not `direction`.
pub open spec fn other(direction: Direction) -> Direction {
    match direction {
        Direction::Fetch => Direction::Deliver,
        Direction::Deliver => Direction::Fetch,
    }
}

/// The leg that a step registered from policy code is bound to. Code that runs
/// for a client request (`client_side`) registers for the body delivered to
/// that client; code that runs for a backend request registers for the body
/// fetched from the backend.
pub open spec fn leg_of(client_side: bool) -> Direction {
    if client_side {
        Direction::Deliver
    } else {
        Direction::Fetch
    }
}

impl Direction {
    /// The leg that policy code running on the client side, or else on the
    /// backend side, registers steps for.
    pub fn of_task(client_side: bool) -> (direction: Direction)
        ensures
            direction == leg_of(client_side),
    {
        if client_side {
            Direction::Deliver
        } else {
            Direction::Fetch
        }
    }
}

/// A step as contracts see it.
pub ghost struct StepView {
    /// The leg the step is bound to.
    pub direction: Direction,
    /// The text of the pattern to look for.
    pub pattern: Seq<char>,
    /// The template that replaces each match.
    pub replacement: Seq<u8>,
    /// How many matches to replace at most; 0 for all of them.
    pub limit: usize,
}

/// `body` after the substitution of `step`.
pub open spec fn applied(step: StepView, body: Seq<u8>) -> Seq<u8> {
    regex_replacen(step.pattern, body, step.limit, step.replacement)
}

/// `body` after those of `steps` that are bound to `direction`, each applied
/// to what the one before it gave.
pub open spec fn rewritten(steps: Seq<StepView>, direction: Direction, body: Seq<u8>) -> Seq<u8>
    decreases steps.len(),
{
    if steps.len() == 0 {
        body
    } else {
        let before = rewritten(steps.drop_last(), direction, body);
        if steps.last().direction == direction {
            applied(steps.last(), before)
        } else {
            before
        }
    }
}

/// Those of `steps` that are bound to `direction`, in their order.
pub open spec fn steps_for(steps: Seq<StepView>, direction: Direction) -> Seq<StepView>
    decreases steps.len(),
{
    if steps.len() == 0 {
        Seq::empty()
    } else if steps.last().direction == direction {
        steps_for(steps.drop_last(), direction).push(steps.last())
    } else {
        steps_for(steps.drop_last(), direction)
    }
}

/// One substitution: a compiled pattern, what replaces its matches, how many
/// of them, and on which leg.
#[derive(Debug)]
pub struct RewriteStep {
    direction: Direction,
    matcher: Matcher,
    replacement: Vec<u8>,
    limit: usize,
}

impl View for RewriteStep {
    type V = StepView;

    closed spec fn view(&self) -> StepView {
        StepView {
            direction: self.direction,
            pattern: self.matcher@,
            replacement: self.replacement@,
            limit: self.limit,
        }
    }
}

/// A list of steps as contracts see it.
pub open spec fn steps_view(steps: Seq<RewriteStep>) -> Seq<StepView> {
    steps.map_values(|step: RewriteStep| step@)
}

impl RewriteStep {
    /// A step that replaces the first `limit` matches of `matcher`, or all of
    /// them where `limit` is 0, on the leg `direction`.
    pub fn new(direction: Direction, matcher: Matcher, replacement: Vec<u8>, limit: usize) -> (step:
        RewriteStep)
        ensures
            step@ == (StepView {
                direction,
                pattern: matcher@,
                replacement: replacement@,
                limit,
            }),
    {
        RewriteStep { direction, matcher, replacement, limit }
    }

    /// The leg this step is bound to.
    pub fn direction(&self) -> (direction: Direction)
        ensures
            direction == self@.direction,
    {
        self.direction
    }

    /// `body` after this step's substitution. A body without a match comes
    /// back as it is, not copied.
    pub fn apply(&self, body: Vec<u8>) -> (out: Vec<u8>)
        ensures
            out@ == applied(self@, body@),
    {
        match self.matcher.replacen(body.as_slice(), self.limit, self.replacement.as_slice()) {
            Some(replaced) => replaced,
            None => body,
        }
    }
}

/// `body` after those of `steps` that are bound to `direction`, in order.
pub fn rewrite(steps: &Vec<RewriteStep>, direction: Direction, body: Vec<u8>) -> (out: Vec<u8>)
    ensures
        out@ == rewritten(steps_view(steps@), direction, body@),
{
    let ghost all = steps_view(steps@);
    let ghost input = body@;
    let mut current = body;
    let mut i: usize = 0;
    while i < steps.len()
        invariant
            i <= steps.len(),
            all == steps_view(steps@),
            current@ == rewritten(all.take(i as int), direction, input),
        decreases steps.len() - i,
    {
        proof {
            assert(all.take(i + 1).drop_last() =~= all.take(i as int));
            assert(all.take(i + 1).last() == steps@[i as int]@);
        }
        if steps[i].direction == direction {
            current = steps[i].apply(current);
        }
        i = i + 1;
    }
    proof {
        assert(all.take(i as int) =~= all);
    }
    current
}

/// The steps of one transaction that no rewriter has claimed yet.
#[derive(Debug)]
pub struct RewriteStepRegistry {
    steps: Vec<RewriteStep>,
}

impl View for RewriteStepRegistry {
    type V = Seq<StepView>;

    closed spec fn view(&self) -> Seq<StepView> {
        steps_view(self.steps@)
    }
}

impl RewriteStepRegistry {
    /// A registry without steps.
    pub fn new() -> (registry: RewriteStepRegistry)
        ensures
            registry@ == Seq::<StepView>::empty(),
    {
        RewriteStepRegistry { steps: Vec::new() }
    }

    /// The number of steps that wait, both legs together.
    pub fn len(&self) -> (n: usize)
        ensures
            n == self@.len(),
    {
        self.steps.len()
    }

    /// Adds `step` behind the steps that are there.
    pub fn register(&mut self, step: RewriteStep)
        ensures
            final(self)@ == old(self)@.push(step@),
    {
        self.steps.push(step);
        proof {
            assert(steps_view(self.steps@) =~= steps_view(old(self).steps@).push(step@));
        }
    }

    /// Takes out the steps bound to `direction`, in the order in which they
    /// were registered. The steps of the other leg stay, in their order.
    pub fn claim(&mut self, direction: Direction) -> (claimed: Vec<RewriteStep>)
        ensures
            steps_view(claimed@) == steps_for(old(self)@, direction),
            final(self)@ == steps_for(old(self)@, other(direction)),
    {
        let mut waiting: Vec<RewriteStep> = Vec::new();
        std::mem::swap(&mut self.steps, &mut waiting);
        let ghost all = steps_view(waiting@);
        let mut claimed: Vec<RewriteStep> = Vec::new();
        for step in it: waiting
            invariant
                all.len() == it.seq().len(),
                forall|k: int| 0 <= k < all.len() ==> all[k] == (#[trigger] it.seq()[k])@,
                steps_view(claimed@) == steps_for(all.take(it.index() as int), direction),
                steps_view(self.steps@) == steps_for(all.take(it.index() as int), other(direction)),
        {
            proof {
                let i = it.index() as int;
                assert(all.take(i + 1).drop_last() =~= all.take(i));
                assert(all.take(i + 1).last() == step@);
            }
            let ghost claimed_before = steps_view(claimed@);
            let ghost kept_before = steps_view(self.steps@);
            if step.direction == direction {
                claimed.push(step);
                proof {
                    assert(steps_view(claimed@) =~= claimed_before.push(step@));
                }
            } else {
                self.steps.push(step);
                proof {
                    assert(steps_view(self.steps@) =~= kept_before.push(step@));
                }
            }
        }
        proof {
            assert(all.take(all.len() as int) =~= all);
        }
        claimed
    }
}


/// The steps that wait in the place where a transaction keeps its registry;
/// none where it has no registry yet.
pub open spec fn waiting(slot: Option<Box<RewriteStepRegistry>>) -> Seq<StepView> {
    match slot {
        Some(registry) => registry@,
        None => Seq::empty(),
    }
}

} // verus!
