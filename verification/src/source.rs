//! The startup source played once while the sink is being constructed.
//!
//! Opening the audio backend starts a playback context of its own, and the
//! backend's internal bring-up allocates on it. The startup source exists to
//! hand that context over safely: pulled on the constructing context it
//! emits silence; on its first pull from a different context it raises that
//! context's busy flag for good — so the playback context's own allocations
//! never feed back into the signal path — and tells the caller to release
//! the rendezvous the constructing context is waiting on. Contexts are told
//! apart by an explicit token carried by the source, never by the order of
//! pulls.

use vstd::prelude::*;
use crate::guard::BusyFlag;

verus! {

/// What one pull of the startup source does.
#[derive(Clone, Copy, PartialEq, Eq, Structural, Debug)]
pub enum BusyStep {
    /// Still on the constructing context: emit one silent sample, keep going.
    Silence,
    /// First pull on the playback context: its busy flag is raised for good;
    /// release the rendezvous and end the source.
    Finish,
    /// A later pull on the playback context: stay ended, emit nothing.
    Done,
}

/// The startup source: silence until it reaches the playback context, then
/// one rendezvous hand-off.
pub struct BusySource {
    /// Token of the context that is constructing the sink.
    pub origin: usize,
    /// True until the rendezvous hand-off happened.
    pub pending: bool,
}

impl BusySource {
    /// A source bound to the constructing context's token. The caller keeps
    /// the rendezvous primitive it will block on.
    pub fn new(origin: usize) -> (s: BusySource)
        ensures
            s.origin == origin,
            s.pending,
    {
        BusySource { origin, pending: true }
    }

    /// One pull, on the context identified by `current` and guarded by
    /// `ctx`. On the constructing context: silence. On any other context:
    /// the context's busy flag is raised — and stays raised, its allocations
    /// are never signalled — and the first such pull asks the caller to
    /// release the rendezvous.
    pub fn next(&mut self, ctx: &mut BusyFlag, current: usize) -> (st: BusyStep)
        ensures
            old(self).origin == current ==> st == BusyStep::Silence && *final(self) == *old(self)
                && *final(ctx) == *old(ctx),
            old(self).origin != current ==> final(ctx).busy && final(self).origin == old(self).origin
                && !final(self).pending,
            old(self).origin != current && old(self).pending ==> st == BusyStep::Finish,
            old(self).origin != current && !old(self).pending ==> st == BusyStep::Done,
    {
        if self.origin == current {
            BusyStep::Silence
        } else {
            ctx.busy = true;
            if self.pending {
                self.pending = false;
                BusyStep::Finish
            } else {
                BusyStep::Done
            }
        }
    }

    /// The startup source is mono.
    pub fn channels(&self) -> (c: u16)
        ensures
            c == 1,
    {
        1
    }

    /// The startup source carries no audio: one sample a second is enough.
    pub fn sample_rate(&self) -> (r: u32)
        ensures
            r == 1,
    {
        1
    }

    /// The startup source has no frame boundary of its own.
    pub fn current_frame_len(&self) -> (l: Option<usize>)
        ensures
            l is None,
    {
        None
    }

    /// The startup source announces no duration.
    pub fn total_duration(&self) -> (d: Option<core::time::Duration>)
        ensures
            d is None,
    {
        None
    }
}

} // verus!
