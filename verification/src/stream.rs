//! The body rewriter: one whole body in, the rewritten body out.
//!
//! A rewriter buffers the body that streams through one leg of a transaction.
//! When the end of the body is seen, it applies the steps it claimed for that
//! leg to the whole of it, once, and then hands the result on: in one piece
//! where the body is pushed, in pieces no larger than the caller's buffer
//! where the body is pulled.
//!
//! The rewriter does no I/O. Whoever drives it performs what it asks for and
//! reports back what came of it.

use crate::rewrite::other;
use crate::rewrite::rewrite;
use crate::rewrite::rewritten;
use crate::rewrite::steps_for;
use crate::rewrite::steps_view;
use crate::rewrite::waiting;
use crate::rewrite::Direction;
use crate::rewrite::RewriteStep;
use crate::rewrite::RewriteStepRegistry;
use crate::rewrite::StepView;
use vstd::prelude::*;
use vstd::slice::slice_subrange;

verus! {

/// Where a rewriter stands with its body. The rewriting itself takes place
/// inside the call that sees the end of the body, so that a rewriter is never
/// found halfway through it.
#[derive(Clone, Copy, Debug, PartialEq, Eq, Structural)]
pub enum Phase {
    /// The body is still coming in.
    Buffering,
    /// The body was rewritten and is being handed out.
    Draining,
    /// All of the rewritten body was handed out.
    Done,
    /// The upstream source failed.
    Failed,
}

/// What came of one pull, upstream of the rewriter or out of it.
#[derive(Clone, Copy, Debug, PartialEq, Eq, Structural)]
pub enum PullResult {
    /// The source failed.
    Error,
    /// So many bytes were put at the start of the buffer, and more will come.
    More(usize),
    /// So many bytes were put at the start of the buffer, and they are the
    /// last.
    End(usize),
}

/// What a rewriter wants done when it is pulled.
#[derive(Clone, Copy, Debug, PartialEq, Eq, Structural)]
pub enum PullAction {
    /// Pull from the upstream source into the same buffer, and pull the
    /// rewriter again with the result.
    Fetch,
    /// Answer the caller with this.
    Reply(PullResult),
}

/// What accompanies a chunk that is pushed.
#[derive(Clone, Copy, Debug, PartialEq, Eq, Structural)]
pub enum PushAction {
    /// More will follow.
    Null,
    /// More will follow; what was sent so far should go out.
    Flush,
    /// This chunk is the last.
    End,
}

/// A rewriter as contracts see it.
pub ghost struct RewriterView {
    /// The leg the rewriter sits on.
    pub direction: Direction,
    /// The steps it claimed.
    pub steps: Seq<StepView>,
    /// Where it stands.
    pub phase: Phase,
    /// While buffering, the body received so far; after that, the rewritten
    /// body.
    pub buffer: Seq<u8>,
    /// How much of the rewritten body was handed out.
    pub cursor: nat,
}

/// A rewriter that has seen nothing yet.
pub open spec fn fresh(direction: Direction, steps: Seq<StepView>) -> RewriterView {
    RewriterView { direction, steps, phase: Phase::Buffering, buffer: Seq::empty(), cursor: 0 }
}

/// `pre` with `chunk` added to what it has buffered.
pub open spec fn absorbed(pre: RewriterView, chunk: Seq<u8>) -> RewriterView {
    RewriterView { buffer: pre.buffer + chunk, ..pre }
}

/// `pre` with its buffer rewritten and nothing of it handed out yet.
pub open spec fn transformed(pre: RewriterView) -> RewriterView {
    RewriterView {
        phase: Phase::Draining,
        buffer: rewritten(pre.steps, pre.direction, pre.buffer),
        cursor: 0,
        ..pre
    }
}

/// How many bytes go into a buffer of `room` bytes.
pub open spec fn drain_len(pre: RewriterView, room: nat) -> nat {
    if pre.buffer.len() - pre.cursor < room {
        (pre.buffer.len() - pre.cursor) as nat
    } else {
        room
    }
}

/// `pre` after handing out what fits into `room` bytes.
pub open spec fn drained(pre: RewriterView, room: nat) -> RewriterView {
    RewriterView {
        phase: if pre.cursor + drain_len(pre, room) == pre.buffer.len() {
            Phase::Done
        } else {
            Phase::Draining
        },
        cursor: pre.cursor + drain_len(pre, room),
        ..pre
    }
}

/// What the caller is told after that.
pub open spec fn drain_reply(pre: RewriterView, room: nat) -> PullResult {
    if pre.cursor + drain_len(pre, room) == pre.buffer.len() {
        PullResult::End(drain_len(pre, room) as usize)
    } else {
        PullResult::More(drain_len(pre, room) as usize)
    }
}

/// What was handed out by a rewriter that is draining or done.
pub open spec fn delivered(view: RewriterView) -> Seq<u8> {
    view.buffer.take(view.cursor as int)
}

/// The cursor never passes the end of the buffer, and stands at 0 while the
/// body is coming in and at the end when all is handed out.
pub open spec fn coherent(view: RewriterView) -> bool {
    &&& view.cursor <= view.buffer.len()
    &&& view.phase == Phase::Buffering ==> view.cursor == 0
    &&& view.phase == Phase::Done ==> view.cursor == view.buffer.len()
}

/// Whether an upstream result speaks of no more bytes than a buffer of
/// `room` bytes holds.
pub open spec fn fits(upstream: Option<PullResult>, room: nat) -> bool {
    match upstream {
        Some(PullResult::More(n)) => n <= room,
        Some(PullResult::End(n)) => n <= room,
        _ => true,
    }
}

/// The state that one pull leaves a rewriter in. `buf` is what the caller's
/// buffer held at the call.
pub open spec fn pull_state(pre: RewriterView, buf: Seq<u8>, upstream: Option<PullResult>) -> RewriterView {
    match pre.phase {
        Phase::Buffering => match upstream {
            None => pre,
            Some(PullResult::Error) => RewriterView { phase: Phase::Failed, ..pre },
            Some(PullResult::More(n)) => absorbed(pre, buf.take(n as int)),
            Some(PullResult::End(n)) => drained(
                transformed(absorbed(pre, buf.take(n as int))),
                buf.len(),
            ),
        },
        Phase::Draining => drained(pre, buf.len()),
        Phase::Done => pre,
        Phase::Failed => pre,
    }
}

/// What one pull asks for.
pub open spec fn pull_action(pre: RewriterView, buf: Seq<u8>, upstream: Option<PullResult>) -> PullAction {
    match pre.phase {
        Phase::Buffering => match upstream {
            None => PullAction::Fetch,
            Some(PullResult::Error) => PullAction::Reply(PullResult::Error),
            Some(PullResult::More(n)) => PullAction::Fetch,
            Some(PullResult::End(n)) => PullAction::Reply(
                drain_reply(transformed(absorbed(pre, buf.take(n as int))), buf.len()),
            ),
        },
        Phase::Draining => PullAction::Reply(drain_reply(pre, buf.len())),
        Phase::Done => PullAction::Reply(PullResult::End(0)),
        Phase::Failed => PullAction::Reply(PullResult::Error),
    }
}

/// The state before the bytes that a pull puts into the caller's buffer are
/// taken from it, if the pull puts any.
pub open spec fn pull_source(pre: RewriterView, buf: Seq<u8>, upstream: Option<PullResult>) -> Option<RewriterView> {
    match pre.phase {
        Phase::Buffering => match upstream {
            Some(PullResult::End(n)) => Some(transformed(absorbed(pre, buf.take(n as int)))),
            _ => None,
        },
        Phase::Draining => Some(pre),
        _ => None,
    }
}

/// The caller's buffer after `source` handed out what fits: the next bytes of
/// the rewritten body at its start, the rest as it was.
pub open spec fn filled(source: RewriterView, buf: Seq<u8>) -> Seq<u8> {
    source.buffer.subrange(
        source.cursor as int,
        (source.cursor + drain_len(source, buf.len())) as int,
    ) + buf.skip(drain_len(source, buf.len()) as int)
}

/// The state that one push leaves a rewriter in.
pub open spec fn push_state(pre: RewriterView, action: PushAction, chunk: Seq<u8>) -> RewriterView {
    if pre.phase != Phase::Buffering {
        pre
    } else if action == PushAction::End {
        RewriterView { phase: Phase::Done, buffer: Seq::empty(), cursor: 0, ..pre }
    } else {
        absorbed(pre, chunk)
    }
}

/// What one push sends downstream: the whole rewritten body with the last
/// chunk, nothing before and nothing after.
pub open spec fn push_output(pre: RewriterView, action: PushAction, chunk: Seq<u8>) -> Option<Seq<u8>> {
    if pre.phase == Phase::Buffering && action == PushAction::End {
        Some(rewritten(pre.steps, pre.direction, pre.buffer + chunk))
    } else {
        None
    }
}

/// The number of bytes that an answer to the caller speaks of.
pub open spec fn reply_len(action: PullAction) -> nat {
    match action {
        PullAction::Reply(PullResult::More(n)) => n as nat,
        PullAction::Reply(PullResult::End(n)) => n as nat,
        _ => 0,
    }
}

/// Whether an answer to the caller reports the end of the body.
pub open spec fn reports_end(action: PullAction) -> bool {
    action matches PullAction::Reply(PullResult::End(_))
}

/// A vector as plain bytes, through an `Option`.
pub open spec fn output_view(output: Option<Vec<u8>>) -> Option<Seq<u8>> {
    match output {
        Some(bytes) => Some(bytes@),
        None => None,
    }
}

/// Adds the bytes of `chunk` behind those of `body`.
fn append(body: &mut Vec<u8>, chunk: &[u8])
    ensures
        final(body)@ == old(body)@ + chunk@,
{
    body.extend_from_slice(chunk);
    assert(body@ =~= old(body)@ + chunk@);
}

/// Buffers one body, rewrites it when its end is seen, and hands it on.
#[derive(Debug)]
pub struct StreamRewriter {
    direction: Direction,
    steps: Vec<RewriteStep>,
    phase: Phase,
    body: Vec<u8>,
    sent: usize,
}

impl View for StreamRewriter {
    type V = RewriterView;

    closed spec fn view(&self) -> RewriterView {
        RewriterView {
            direction: self.direction,
            steps: steps_view(self.steps@),
            phase: self.phase,
            buffer: self.body@,
            cursor: self.sent as nat,
        }
    }
}

impl StreamRewriter {
    #[verifier::type_invariant]
    spec fn well_formed(self) -> bool {
        coherent(self@)
    }

    /// A rewriter for the leg `direction`. It takes the steps that wait in
    /// `registry` for that leg; those of the other leg stay there.
    pub fn new(direction: Direction, registry: &mut RewriteStepRegistry) -> (rewriter:
        StreamRewriter)
        ensures
            rewriter@ == fresh(direction, steps_for(old(registry)@, direction)),
            final(registry)@ == steps_for(old(registry)@, other(direction)),
    {
        let steps = registry.claim(direction);
        StreamRewriter { direction, steps, phase: Phase::Buffering, body: Vec::new(), sent: 0 }
    }

    /// A rewriter for the leg `direction` of the transaction that keeps its
    /// registry in `slot`, or `None` where no step waits for that leg: the
    /// body then needs no rewriter at all. `slot` is `None` where the host has
    /// no storage for the transaction.
    pub fn open(direction: Direction, slot: Option<&mut Option<Box<RewriteStepRegistry>>>) -> (opened:
        Option<StreamRewriter>)
        ensures
            match opened {
                Some(rewriter) => slot matches Some(place) && rewriter@ == fresh(
                    direction,
                    steps_for(waiting(*place), direction),
                ) && rewriter@.steps.len() > 0,
                None => slot matches Some(place) ==> steps_for(waiting(*place), direction).len()
                    == 0,
            },
            slot matches Some(place) ==> waiting(*final(place)) == steps_for(
                waiting(*place),
                other(direction),
            ) && (*place is Some <==> *final(place) is Some),
    {
        let place = match slot {
            Some(place) => place,
            None => {
                return None;
            },
        };
        let mut registry = match place.take() {
            Some(registry) => registry,
            None => {
                return None;
            },
        };
        let rewriter = StreamRewriter::new(direction, &mut registry);
        *place = Some(registry);
        if rewriter.is_passthrough() {
            None
        } else {
            Some(rewriter)
        }
    }

    /// Where the rewriter stands.
    pub fn phase(&self) -> (phase: Phase)
        ensures
            phase == self@.phase,
    {
        self.phase
    }

    /// The leg the rewriter sits on.
    pub fn direction(&self) -> (direction: Direction)
        ensures
            direction == self@.direction,
    {
        self.direction
    }

    /// Whether the rewriter has no step to apply, so that the body will go
    /// through unchanged.
    pub fn is_passthrough(&self) -> (idle: bool)
        ensures
            idle == (self@.steps.len() == 0),
    {
        self.steps.len() == 0
    }

    /// Adds `chunk` to the body received so far.
    fn absorb(&mut self, chunk: &[u8])
        requires
            old(self)@.phase == Phase::Buffering,
        ensures
            final(self)@ == absorbed(old(self)@, chunk@),
    {
        proof {
            use_type_invariant(&*self);
        }
        // The body is moved out while it grows and put back whole.
        let mut body: Vec<u8> = Vec::new();
        std::mem::swap(&mut self.body, &mut body);
        append(&mut body, chunk);
        self.body = body;
    }

    /// Rewrites the whole body and readies it for handing out.
    fn transform(&mut self)
        requires
            old(self)@.phase == Phase::Buffering,
        ensures
            final(self)@ == transformed(old(self)@),
    {
        proof {
            use_type_invariant(&*self);
        }
        let mut body: Vec<u8> = Vec::new();
        std::mem::swap(&mut self.body, &mut body);
        self.body = rewrite(&self.steps, self.direction, body);
        self.phase = Phase::Draining;
    }

    /// Copies what fits of the rewritten body into `buf` and moves the cursor
    /// past it.
    fn drain(&mut self, buf: &mut [u8]) -> (reply: PullResult)
        requires
            old(self)@.phase == Phase::Draining,
        ensures
            final(self)@ == drained(old(self)@, old(buf)@.len()),
            reply == drain_reply(old(self)@, old(buf)@.len()),
            final(buf)@ == filled(old(self)@, old(buf)@),
    {
        proof {
            use_type_invariant(&*self);
        }
        let remaining: usize = self.body.len() - self.sent;
        let count: usize = if remaining < buf.len() {
            remaining
        } else {
            buf.len()
        };
        let total: usize = self.body.len();
        let mut i: usize = 0;
        while i < count
            invariant
                i <= count <= buf@.len(),
                buf@.len() == old(buf)@.len(),
                total == self.body@.len(),
                self.sent + count <= total,
                forall|j: int| 0 <= j < i ==> buf@[j] == self.body@[self.sent + j],
                forall|j: int| i <= j < buf@.len() ==> buf@[j] == old(buf)@[j],
            decreases count - i,
        {
            buf[i] = self.body[self.sent + i];
            i = i + 1;
        }
        proof {
            assert(buf@ =~= filled(old(self)@, old(buf)@));
        }
        self.sent = self.sent + count;
        if self.sent == self.body.len() {
            self.phase = Phase::Done;
            PullResult::End(count)
        } else {
            PullResult::More(count)
        }
    }

    /// One step of a pull. `upstream` is `None` when the caller pulls, and
    /// after a [`PullAction::Fetch`] it is what the upstream source answered,
    /// with the bytes it gave at the start of `buf`.
    ///
    /// While the body is coming in, each chunk is buffered and the next is
    /// asked for. The chunk that ends the body has the whole of it rewritten,
    /// and from then on each pull copies the next bytes of the result into
    /// `buf`, never more than `buf` holds. The end is reported by the pull
    /// that hands out the last byte. A failure of the source is passed on as
    /// it is. Once all is handed out, a pull reports the end with no bytes
    /// and changes nothing; after a failure, it reports the failure again.
    pub fn pull(&mut self, buf: &mut [u8], upstream: Option<PullResult>) -> (action: PullAction)
        requires
            fits(upstream, old(buf)@.len()),
        ensures
            final(self)@ == pull_state(old(self)@, old(buf)@, upstream),
            action == pull_action(old(self)@, old(buf)@, upstream),
            final(buf)@ == match pull_source(old(self)@, old(buf)@, upstream) {
                Some(source) => filled(source, old(buf)@),
                None => old(buf)@,
            },
            coherent(final(self)@),
            reply_len(action) <= old(buf)@.len(),
            old(self)@.phase != Phase::Done ==> (reports_end(action) <==> final(self)@.phase
                == Phase::Done),
    {
        proof {
            use_type_invariant(&*self);
        }
        let action = match self.phase {
            Phase::Buffering => match upstream {
                None => PullAction::Fetch,
                Some(PullResult::Error) => {
                    self.phase = Phase::Failed;
                    PullAction::Reply(PullResult::Error)
                },
                Some(PullResult::More(n)) => {
                    self.absorb(slice_subrange(buf, 0, n));
                    PullAction::Fetch
                },
                Some(PullResult::End(n)) => {
                    self.absorb(slice_subrange(buf, 0, n));
                    self.transform();
                    PullAction::Reply(self.drain(buf))
                },
            },
            Phase::Draining => PullAction::Reply(self.drain(buf)),
            Phase::Done => PullAction::Reply(PullResult::End(0)),
            Phase::Failed => PullAction::Reply(PullResult::Error),
        };
        proof {
            use_type_invariant(&*self);
        }
        action
    }

    /// One push. Each chunk is buffered. The chunk that comes with
    /// [`PushAction::End`] has the whole body rewritten, and the result is
    /// returned to be sent downstream in one piece, with the end marker.
    /// Before that nothing is sent. After it the rewriter is done: a further
    /// push is ignored.
    pub fn push(&mut self, action: PushAction, chunk: &[u8]) -> (output: Option<Vec<u8>>)
        ensures
            final(self)@ == push_state(old(self)@, action, chunk@),
            output_view(output) == push_output(old(self)@, action, chunk@),
            coherent(final(self)@),
    {
        proof {
            use_type_invariant(&*self);
        }
        if self.phase != Phase::Buffering {
            return None;
        }
        if action == PushAction::End {
            let mut body: Vec<u8> = Vec::new();
            std::mem::swap(&mut self.body, &mut body);
            append(&mut body, chunk);
            self.phase = Phase::Done;
            Some(rewrite(&self.steps, self.direction, body))
        } else {
            self.absorb(chunk);
            None
        }
    }
}

} // verus!
