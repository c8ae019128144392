//! The Geiger counter allocator wrapper.
//!
//! [`Geiger`] owns the underlying allocator and the process-wide
//! [`SinkSlot`]. Every allocator operation first offers the event to the
//! guarded signal path and then performs the real operation against the
//! wrapped allocator, returning its result unchanged — the wrapper is purely
//! an observation layer, and signaling failures never fail the allocation.
//!
//! Each operation also hands back the [`SignalAction`] the signal path
//! decided on; the caller carries it out (emitting a pulse, or constructing
//! the sink) and closes the attempt through the slot's protocol.

use vstd::prelude::*;
use crate::allocator::{Memory, RawAllocator};
use crate::guard::BusyFlag;
use crate::sink::{signal_step, SignalAction, SinkSlot, SinkState};

verus! {

/// Geiger counter allocator: the wrapped allocator plus the signal path.
pub struct Geiger<Alloc> {
    /// The underlying allocator every operation is forwarded to.
    pub inner: Alloc,
    /// The process-wide signal sink slot.
    pub sink: SinkSlot,
}

impl<Alloc> Geiger<Alloc> {
    /// Wrap an underlying allocator; no sink exists yet and the init gate is
    /// open.
    pub fn with_alloc(inner: Alloc) -> (g: Geiger<Alloc>)
        ensures
            g.inner == inner,
            g.sink.state == SinkState::Unset,
            !g.sink.claimed,
    {
        Geiger { inner, sink: SinkSlot::new() }
    }
}

impl<Alloc: RawAllocator> Geiger<Alloc> {
    /// Allocate through the wrapper: the event goes to the signal path, the
    /// request goes to the wrapped allocator, whose result is returned
    /// unchanged — whatever the guard and sink states were.
    pub fn allocate(&mut self, ctx: &mut BusyFlag, size: usize, align: usize) -> (r: (
        Memory,
        SignalAction,
    ))
        ensures
            r.0 == old(self).inner.allocate_result(size, align),
            final(self).inner == old(self).inner.allocate_next(size, align),
            (r.1, final(self).sink, final(ctx).busy) == signal_step(
                old(self).sink,
                old(ctx).busy,
            ),
    {
        let a = self.sink.begin(ctx);
        let m = self.inner.allocate(size, align);
        (m, a)
    }

    /// Allocate zeroed through the wrapper; same pass-through contract.
    pub fn allocate_zeroed(&mut self, ctx: &mut BusyFlag, size: usize, align: usize) -> (r: (
        Memory,
        SignalAction,
    ))
        ensures
            r.0 == old(self).inner.allocate_zeroed_result(size, align),
            final(self).inner == old(self).inner.allocate_zeroed_next(size, align),
            (r.1, final(self).sink, final(ctx).busy) == signal_step(
                old(self).sink,
                old(ctx).busy,
            ),
    {
        let a = self.sink.begin(ctx);
        let m = self.inner.allocate_zeroed(size, align);
        (m, a)
    }

    /// Deallocate through the wrapper; same pass-through contract.
    pub fn deallocate(&mut self, ctx: &mut BusyFlag, m: Memory, size: usize, align: usize) -> (a:
        SignalAction)
        ensures
            final(self).inner == old(self).inner.deallocate_next(m, size, align),
            (a, final(self).sink, final(ctx).busy) == signal_step(old(self).sink, old(ctx).busy),
    {
        let a = self.sink.begin(ctx);
        self.inner.deallocate(m, size, align);
        a
    }

    /// Reallocate through the wrapper; same pass-through contract.
    pub fn reallocate(
        &mut self,
        ctx: &mut BusyFlag,
        m: Memory,
        size: usize,
        align: usize,
        new_size: usize,
    ) -> (r: (Memory, SignalAction))
        ensures
            r.0 == old(self).inner.reallocate_result(m, size, align, new_size),
            final(self).inner == old(self).inner.reallocate_next(m, size, align, new_size),
            (r.1, final(self).sink, final(ctx).busy) == signal_step(
                old(self).sink,
                old(ctx).busy,
            ),
    {
        let a = self.sink.begin(ctx);
        let r = self.inner.reallocate(m, size, align, new_size);
        (r, a)
    }
}

/// One request against the allocator, as the wrapper forwards it.
pub enum AllocRequest {
    /// Allocate `size` bytes aligned to `align`.
    Allocate { size: usize, align: usize },
    /// Allocate `size` zeroed bytes aligned to `align`.
    AllocateZeroed { size: usize, align: usize },
    /// Return the block `m`.
    Deallocate { m: Memory, size: usize, align: usize },
    /// Resize the block `m` to `new_size` bytes.
    Reallocate { m: Memory, size: usize, align: usize, new_size: usize },
}

/// The underlying allocator's state after one request.
pub open spec fn inner_next<Alloc: RawAllocator>(a: Alloc, r: AllocRequest) -> Alloc {
    match r {
        AllocRequest::Allocate { size, align } => a.allocate_next(size, align),
        AllocRequest::AllocateZeroed { size, align } => a.allocate_zeroed_next(size, align),
        AllocRequest::Deallocate { m, size, align } => a.deallocate_next(m, size, align),
        AllocRequest::Reallocate { m, size, align, new_size } => a.reallocate_next(
            m,
            size,
            align,
            new_size,
        ),
    }
}

/// The block, if any, the underlying allocator returns for one request.
pub open spec fn inner_result<Alloc: RawAllocator>(a: Alloc, r: AllocRequest) -> Option<Memory> {
    match r {
        AllocRequest::Allocate { size, align } => Some(a.allocate_result(size, align)),
        AllocRequest::AllocateZeroed { size, align } => Some(
            a.allocate_zeroed_result(size, align),
        ),
        AllocRequest::Deallocate { .. } => None,
        AllocRequest::Reallocate { m, size, align, new_size } => Some(
            a.reallocate_result(m, size, align, new_size),
        ),
    }
}

/// The underlying allocator's state after a request sequence, run directly.
pub open spec fn inner_run<Alloc: RawAllocator>(a: Alloc, reqs: Seq<AllocRequest>) -> Alloc
    decreases reqs.len(),
{
    if reqs.len() == 0 {
        a
    } else {
        inner_run(inner_next(a, reqs[0]), reqs.drop_first())
    }
}

/// The blocks a direct run of the underlying allocator returns, in order.
pub open spec fn inner_results<Alloc: RawAllocator>(a: Alloc, reqs: Seq<AllocRequest>) -> Seq<
    Option<Memory>,
>
    decreases reqs.len(),
{
    if reqs.len() == 0 {
        Seq::empty()
    } else {
        seq![inner_result(a, reqs[0])] + inner_results(inner_next(a, reqs[0]), reqs.drop_first())
    }
}

/// The wrapper's state after a request sequence: the allocator component
/// follows the requests, the sink component follows the signal path, fed
/// with whatever busy flag each event happened to see.
pub open spec fn wrapped_run<Alloc: RawAllocator>(
    a: Alloc,
    s: SinkSlot,
    reqs: Seq<AllocRequest>,
    busys: Seq<bool>,
) -> (Alloc, SinkSlot)
    decreases reqs.len(),
{
    if reqs.len() == 0 {
        (a, s)
    } else {
        wrapped_run(
            inner_next(a, reqs[0]),
            signal_step(s, busys[0]).1,
            reqs.drop_first(),
            busys.drop_first(),
        )
    }
}

/// The blocks the wrapper returns along a request sequence, in order.
pub open spec fn wrapped_results<Alloc: RawAllocator>(
    a: Alloc,
    s: SinkSlot,
    reqs: Seq<AllocRequest>,
    busys: Seq<bool>,
) -> Seq<Option<Memory>>
    decreases reqs.len(),
{
    if reqs.len() == 0 {
        Seq::empty()
    } else {
        seq![inner_result(a, reqs[0])] + wrapped_results(
            inner_next(a, reqs[0]),
            signal_step(s, busys[0]).1,
            reqs.drop_first(),
            busys.drop_first(),
        )
    }
}

/// The signaling layer is transparent: over any sequence of allocate,
/// allocate-zeroed, deallocate and reallocate requests, whatever guard and
/// sink states the events met, the wrapper returns exactly the blocks a
/// direct run of the underlying allocator would return, and leaves the
/// underlying allocator in exactly the state a direct run would.
pub proof fn lemma_wrapper_transparent<Alloc: RawAllocator>(
    a: Alloc,
    s: SinkSlot,
    reqs: Seq<AllocRequest>,
    busys: Seq<bool>,
)
    requires
        reqs.len() == busys.len(),
    ensures
        wrapped_results(a, s, reqs, busys) == inner_results(a, reqs),
        wrapped_run(a, s, reqs, busys).0 == inner_run(a, reqs),
    decreases reqs.len(),
{
    if reqs.len() > 0 {
        lemma_wrapper_transparent(
            inner_next(a, reqs[0]),
            signal_step(s, busys[0]).1,
            reqs.drop_first(),
            busys.drop_first(),
        );
    }
}

} // verus!
