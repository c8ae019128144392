//! The process-wide signal sink slot and the guarded emission protocol.
//!
//! This is the core of the library: a state machine combining
//!
//! * the write-once sink slot (unset until a construction outcome is
//!   published, then permanently ready or permanently absent),
//! * the init gate (`claimed`), which lets exactly one context perform the
//!   construction while concurrent contexts degrade gracefully by skipping
//!   their signal instead of blocking, and
//! * the per-context reentrancy guard, which turns an emission attempt made
//!   during another emission on the same context into a defined no-op.
//!
//! One allocator event is processed by calling [`SinkSlot::begin`], carrying
//! out the returned [`SignalAction`] (emitting a pulse or constructing the
//! sink — both performed by the unverified audio layer), publishing a
//! construction outcome with [`SinkSlot::publish`] if one was requested, and
//! closing the attempt with [`SinkSlot::finish`].

use vstd::prelude::*;
use crate::guard::BusyFlag;

verus! {

/// The lifecycle of the process-wide signal sink.
#[derive(Clone, Copy, PartialEq, Eq, Structural, Debug)]
pub enum SinkState {
    /// No construction outcome has been published yet.
    Unset,
    /// Construction succeeded; the sink can emit signals.
    Ready,
    /// Construction failed; the sink is permanently unavailable.
    Absent,
}

/// Why a signal was not delivered. Both variants are swallowed: signaling is
/// best-effort and never changes the outcome of the allocator operation.
#[derive(Clone, Copy, PartialEq, Eq, Structural, Debug)]
pub enum SinkError {
    /// The output device or stream could not be opened.
    ConstructionFailed,
    /// The sink exists but one emission through it failed.
    WriteFailed,
}

/// What the caller must do after [`SinkSlot::begin`] accepted an event.
#[derive(Clone, Copy, PartialEq, Eq, Structural, Debug)]
pub enum SignalAction {
    /// Nothing: the event was skipped (reentrancy, lost init race, or no sink).
    Skip,
    /// Emit one pulse through the ready sink, then call [`SinkSlot::finish`].
    Emit,
    /// Construct the sink and [`SinkSlot::publish`] the outcome; if it is
    /// ready afterwards, emit once; then call [`SinkSlot::finish`].
    Construct,
}

/// The process-wide, write-once sink slot together with the init gate.
pub struct SinkSlot {
    /// The published outcome of sink construction.
    pub state: SinkState,
    /// True once some context has claimed the right to construct the sink.
    pub claimed: bool,
}

/// One signal-emission attempt, as a function of the slot and of the busy
/// flag of the context the triggering event arrived on. Returns the action
/// owed by the caller, the slot afterwards, and the busy flag afterwards.
///
/// * A busy context is mid-emission: the event is skipped outright.
/// * A ready sink emits; the context stays busy until [`SinkSlot::finish`].
/// * An absent sink skips, forever.
/// * For an unset slot, whichever context wins the init gate owes the
///   construction; contexts that lose that race skip rather than block.
pub open spec fn signal_step(s: SinkSlot, busy: bool) -> (SignalAction, SinkSlot, bool) {
    if busy {
        (SignalAction::Skip, s, true)
    } else {
        match s.state {
            SinkState::Ready => (SignalAction::Emit, s, true),
            SinkState::Absent => (SignalAction::Skip, s, false),
            SinkState::Unset => if !s.claimed {
                (SignalAction::Construct, SinkSlot { state: SinkState::Unset, claimed: true }, true)
            } else {
                (SignalAction::Skip, s, false)
            },
        }
    }
}

impl SinkSlot {
    /// A published outcome is only ever reached through the init gate.
    pub open spec fn wf(self) -> bool {
        self.state != SinkState::Unset ==> self.claimed
    }

    /// A fresh process: nothing published, gate unclaimed.
    pub fn new() -> (s: SinkSlot)
        ensures
            s.state == SinkState::Unset,
            !s.claimed,
            s.wf(),
    {
        SinkSlot { state: SinkState::Unset, claimed: false }
    }

    /// Accept one allocator event on the context guarded by `ctx` and decide
    /// what, if anything, the caller owes; exactly [`signal_step`].
    pub fn begin(&mut self, ctx: &mut BusyFlag) -> (a: SignalAction)
        ensures
            (a, *final(self), final(ctx).busy) == signal_step(*old(self), old(ctx).busy),
    {
        if ctx.busy {
            SignalAction::Skip
        } else {
            match self.state {
                SinkState::Ready => {
                    ctx.busy = true;
                    SignalAction::Emit
                },
                SinkState::Absent => SignalAction::Skip,
                SinkState::Unset => if !self.claimed {
                    self.claimed = true;
                    ctx.busy = true;
                    SignalAction::Construct
                } else {
                    SignalAction::Skip
                },
            }
        }
    }

    /// Publish the outcome of the one construction attempt. Only the context
    /// that won the init gate ever holds the preconditions, and publishing
    /// moves the slot out of `Unset` for good, so this happens at most once
    /// per process.
    pub fn publish(&mut self, outcome: Result<(), SinkError>)
        requires
            old(self).claimed,
            old(self).state == SinkState::Unset,
        ensures
            final(self).claimed,
            final(self).state == (match outcome {
                Ok(()) => SinkState::Ready,
                Err(_) => SinkState::Absent,
            }),
            final(self).wf(),
    {
        match outcome {
            Ok(()) => {
                self.state = SinkState::Ready;
            },
            Err(_) => {
                self.state = SinkState::Absent;
            },
        }
    }

    /// Close the emission attempt on this context: the busy flag drops again
    /// whatever the outcome was — a failed write is swallowed and leaves the
    /// slot exactly as it was.
    pub fn finish(&self, ctx: &mut BusyFlag, _outcome: Result<(), SinkError>)
        requires
            old(ctx).busy,
        ensures
            !final(ctx).busy,
    {
        ctx.busy = false;
    }
}

/// A signal emission attempted during another emission on the same context is
/// a defined no-op: it emits nothing, requests nothing, and changes nothing,
/// so the recursion bottoms out immediately and cannot deadlock.
pub proof fn lemma_reentrant_attempt_is_noop(s: SinkSlot)
    ensures
        signal_step(s, true) == (SignalAction::Skip, s, true),
{
}

/// One event in the life of the process-wide slot, as any context may
/// produce it: either an allocator event arriving on a context whose busy
/// flag holds the given value, or the winning context publishing its
/// construction outcome.
pub enum SinkEvent {
    /// An allocator event on a context whose busy flag is `busy`.
    Arrive { busy: bool },
    /// The construction outcome is published; `ok` tells whether it succeeded.
    Publish { ok: bool },
}

/// The slot after a publish event; a publish without a standing claim on an
/// unset slot has no effect.
pub open spec fn publish_step(s: SinkSlot, ok: bool) -> SinkSlot {
    if s.claimed && s.state == SinkState::Unset {
        SinkSlot { state: if ok { SinkState::Ready } else { SinkState::Absent }, claimed: true }
    } else {
        s
    }
}

/// The slot after one event.
pub open spec fn event_step(s: SinkSlot, ev: SinkEvent) -> SinkSlot {
    match ev {
        SinkEvent::Arrive { busy } => signal_step(s, busy).1,
        SinkEvent::Publish { ok } => publish_step(s, ok),
    }
}

/// The action an event yields: publishing yields none.
pub open spec fn event_action(s: SinkSlot, ev: SinkEvent) -> SignalAction {
    match ev {
        SinkEvent::Arrive { busy } => signal_step(s, busy).0,
        SinkEvent::Publish { .. } => SignalAction::Skip,
    }
}

/// The slot after a whole event sequence.
pub open spec fn run(s: SinkSlot, evs: Seq<SinkEvent>) -> SinkSlot
    decreases evs.len(),
{
    if evs.len() == 0 {
        s
    } else {
        run(event_step(s, evs[0]), evs.drop_first())
    }
}

/// The actions yielded along a whole event sequence, in order.
pub open spec fn actions(s: SinkSlot, evs: Seq<SinkEvent>) -> Seq<SignalAction>
    decreases evs.len(),
{
    if evs.len() == 0 {
        Seq::empty()
    } else {
        seq![event_action(s, evs[0])] + actions(event_step(s, evs[0]), evs.drop_first())
    }
}

/// How many events of a sequence win the right to construct the sink.
pub open spec fn constructions(s: SinkSlot, evs: Seq<SinkEvent>) -> nat
    decreases evs.len(),
{
    if evs.len() == 0 {
        0
    } else {
        (if event_action(s, evs[0]) == SignalAction::Construct {
            1nat
        } else {
            0nat
        }) + constructions(event_step(s, evs[0]), evs.drop_first())
    }
}

/// An event sequence yields one action per event.
proof fn lemma_actions_len(s: SinkSlot, evs: Seq<SinkEvent>)
    ensures
        actions(s, evs).len() == evs.len(),
    decreases evs.len(),
{
    if evs.len() > 0 {
        lemma_actions_len(event_step(s, evs[0]), evs.drop_first());
    }
}

/// No event ever releases the init gate.
proof fn lemma_claim_monotone(s: SinkSlot, ev: SinkEvent)
    ensures
        s.claimed ==> event_step(s, ev).claimed,
{
}

/// Once the init gate is claimed, no later event wins a construction.
proof fn lemma_claimed_blocks_construction(s: SinkSlot, evs: Seq<SinkEvent>)
    requires
        s.claimed,
    ensures
        constructions(s, evs) == 0,
    decreases evs.len(),
{
    if evs.len() > 0 {
        lemma_claim_monotone(s, evs[0]);
        lemma_claimed_blocks_construction(event_step(s, evs[0]), evs.drop_first());
    }
}

/// Sink construction happens at most once per process: however many contexts
/// race, and in whatever order their events interleave, at most one event in
/// the sequence is answered with `Construct`.
pub proof fn lemma_construction_at_most_once(s: SinkSlot, evs: Seq<SinkEvent>)
    ensures
        constructions(s, evs) <= 1,
    decreases evs.len(),
{
    if evs.len() > 0 {
        let s2 = event_step(s, evs[0]);
        if event_action(s, evs[0]) == SignalAction::Construct {
            lemma_claimed_blocks_construction(s2, evs.drop_first());
        } else {
            lemma_construction_at_most_once(s2, evs.drop_first());
        }
    }
}

/// The published sink state is write-once: once it is `Ready` or `Absent`,
/// no later event ever changes it.
pub proof fn lemma_published_state_is_final(s: SinkSlot, evs: Seq<SinkEvent>)
    requires
        s.state != SinkState::Unset,
    ensures
        run(s, evs).state == s.state,
    decreases evs.len(),
{
    if evs.len() > 0 {
        lemma_published_state_is_final(event_step(s, evs[0]), evs.drop_first());
    }
}

/// If construction failed, allocation events on all contexts proceed without
/// signals, indefinitely: the slot stays `Absent` and every later event is
/// answered with `Skip`.
pub proof fn lemma_absent_sink_never_signals(s: SinkSlot, evs: Seq<SinkEvent>)
    requires
        s.state == SinkState::Absent,
    ensures
        run(s, evs).state == SinkState::Absent,
        forall|i: int| 0 <= i < evs.len() ==> #[trigger] actions(s, evs)[i] == SignalAction::Skip,
    decreases evs.len(),
{
    if evs.len() > 0 {
        let s2 = event_step(s, evs[0]);
        assert(s2.state == SinkState::Absent);
        lemma_absent_sink_never_signals(s2, evs.drop_first());
        assert forall|i: int| 0 <= i < evs.len() implies #[trigger] actions(s, evs)[i]
            == SignalAction::Skip by {
            lemma_actions_len(s2, evs.drop_first());
            if i > 0 {
                assert(actions(s, evs)
                    == seq![event_action(s, evs[0])] + actions(s2, evs.drop_first()));
                assert(actions(s, evs)[i] == actions(s2, evs.drop_first())[i - 1]);
            }
        }
    }
}

/// Every event preserves the slot's well-formedness.
pub proof fn lemma_event_preserves_wf(s: SinkSlot, ev: SinkEvent)
    ensures
        s.wf() ==> event_step(s, ev).wf(),
{
}

} // verus!
