use alloc_geiger::allocator::{CounterAllocator, Memory, RawAllocator};
use alloc_geiger::geiger::Geiger;
use alloc_geiger::guard::BusyFlag;
use alloc_geiger::pulse::{Pulse, PulseSample, HALF_SPAN, PERIOD_MILLIS, PERIOD_SAMPLES, SAMPLE_RATE};
use alloc_geiger::sink::{SignalAction, SinkError, SinkSlot, SinkState};
use alloc_geiger::source::{BusySource, BusyStep};

fn collect_pulse() -> Vec<PulseSample> {
    let mut p = Pulse::new();
    let mut out: Vec<PulseSample> = Vec::new();
    while let Some(s) = p.next() {
        out.push(s);
    }
    out
}

#[test]
fn pulse_parameters() {
    assert_eq!(SAMPLE_RATE, 48000);
    assert_eq!(PERIOD_MILLIS, 4);
    assert_eq!(PERIOD_SAMPLES, 12);
    assert_eq!(HALF_SPAN, 48);
    let p = Pulse::new();
    assert_eq!(p.channels(), 1);
    assert_eq!(p.sample_rate(), 48000);
    assert!(p.current_frame_len().is_none());
    assert!(p.total_duration().is_none());
}

#[test]
fn pulse_is_finite_with_peak_at_center() {
    let samples = collect_pulse();
    assert_eq!(samples.len(), 96);
    assert_eq!(samples[0], PulseSample::Sinc(-48));
    assert_eq!(samples[48], PulseSample::Peak);
    assert_eq!(samples[95], PulseSample::Sinc(47));
    for (k, s) in samples.iter().enumerate() {
        let i = k as i32 - 48;
        if i == 0 {
            assert_eq!(*s, PulseSample::Peak);
        } else {
            assert_eq!(*s, PulseSample::Sinc(i as i16));
        }
    }
}

#[test]
fn pulse_is_reproducible() {
    let first = collect_pulse();
    let second = collect_pulse();
    assert_eq!(first, second);
}

#[test]
fn pulse_stays_exhausted() {
    let mut p = Pulse::new();
    while p.next().is_some() {}
    assert!(p.next().is_none());
    assert!(p.next().is_none());
}

#[test]
fn first_event_constructs_then_later_events_emit() {
    let mut slot = SinkSlot::new();
    let mut ctx = BusyFlag::new();

    let a = slot.begin(&mut ctx);
    assert_eq!(a, SignalAction::Construct);
    assert!(ctx.busy);

    slot.publish(Ok(()));
    assert_eq!(slot.state, SinkState::Ready);
    slot.finish(&mut ctx, Ok(()));
    assert!(!ctx.busy);

    let a2 = slot.begin(&mut ctx);
    assert_eq!(a2, SignalAction::Emit);
    slot.finish(&mut ctx, Ok(()));
}

#[test]
fn reentrant_event_is_skipped() {
    let mut slot = SinkSlot::new();
    let mut ctx = BusyFlag::new();

    let a = slot.begin(&mut ctx);
    assert_eq!(a, SignalAction::Construct);
    assert!(ctx.busy);

    // The construction allocates on the same context: the nested event must
    // be a no-op, leaving both the slot and the flag as they were.
    let nested = slot.begin(&mut ctx);
    assert_eq!(nested, SignalAction::Skip);
    assert!(ctx.busy);
    assert_eq!(slot.state, SinkState::Unset);
    assert!(slot.claimed);

    slot.publish(Ok(()));
    slot.finish(&mut ctx, Ok(()));

    // Same during a plain emission.
    let a2 = slot.begin(&mut ctx);
    assert_eq!(a2, SignalAction::Emit);
    let nested2 = slot.begin(&mut ctx);
    assert_eq!(nested2, SignalAction::Skip);
    assert!(ctx.busy);
    assert_eq!(slot.state, SinkState::Ready);
    slot.finish(&mut ctx, Ok(()));
}

#[test]
fn losing_context_allocates_without_signal() {
    let mut g = Geiger::with_alloc(CounterAllocator::new());
    let mut ctx_a = BusyFlag::new();
    let mut ctx_b = BusyFlag::new();

    // Context B triggers first-time construction.
    let rb = g.allocate(&mut ctx_b, 64, 8);
    assert_eq!(rb.1, SignalAction::Construct);

    // Context A allocates one byte while B still holds the init gate: the
    // allocation succeeds, the signal is skipped, nothing blocks.
    let ra = g.allocate(&mut ctx_a, 1, 1);
    assert_eq!(ra.0, Memory { addr: 2 });
    assert_eq!(ra.1, SignalAction::Skip);
    assert!(!ctx_a.busy);

    g.sink.publish(Ok(()));
    g.sink.finish(&mut ctx_b, Ok(()));

    // Once the sink is published, A's next event emits.
    let ra2 = g.allocate(&mut ctx_a, 1, 1);
    assert_eq!(ra2.1, SignalAction::Emit);
    g.sink.finish(&mut ctx_a, Ok(()));
}

#[test]
fn failed_construction_silences_all_contexts_forever() {
    let mut g = Geiger::with_alloc(CounterAllocator::new());
    let mut ctx = BusyFlag::new();

    let r = g.allocate(&mut ctx, 16, 8);
    assert_eq!(r.1, SignalAction::Construct);
    g.sink.publish(Err(SinkError::ConstructionFailed));
    assert_eq!(g.sink.state, SinkState::Absent);
    g.sink.finish(&mut ctx, Err(SinkError::ConstructionFailed));

    let mut other = BusyFlag::new();
    for i in 0..100usize {
        let ra = g.allocate(&mut ctx, i + 1, 1);
        assert_eq!(ra.1, SignalAction::Skip);
        let rb = g.allocate_zeroed(&mut other, i + 1, 1);
        assert_eq!(rb.1, SignalAction::Skip);
        assert_eq!(g.sink.state, SinkState::Absent);
        assert!(!ctx.busy);
        assert!(!other.busy);
    }
}

#[test]
fn hundred_allocations_emit_hundred_signals() {
    let mut g = Geiger::with_alloc(CounterAllocator::new());
    let mut ctx = BusyFlag::new();

    // Bring the sink up once.
    let r = g.allocate(&mut ctx, 1, 1);
    assert_eq!(r.1, SignalAction::Construct);
    g.sink.publish(Ok(()));
    g.sink.finish(&mut ctx, Ok(()));

    let mut emissions = 0usize;
    for i in 0..100usize {
        let ra = g.allocate(&mut ctx, i + 1, 8);
        if ra.1 == SignalAction::Emit {
            emissions += 1;
            g.sink.finish(&mut ctx, Ok(()));
        }
    }
    assert_eq!(emissions, 100);
}

#[test]
fn wrapper_returns_exactly_what_the_allocator_returns() {
    let mut direct = CounterAllocator::new();
    let mut g = Geiger::with_alloc(CounterAllocator::new());
    let mut ctx = BusyFlag::new();

    let mut direct_results: Vec<Memory> = Vec::new();
    let mut wrapped_results: Vec<Memory> = Vec::new();

    for i in 0..50usize {
        let size = i + 1;
        direct_results.push(direct.allocate(size, 8));
        let (m, a) = g.allocate(&mut ctx, size, 8);
        wrapped_results.push(m);
        // Drive the signal path through every one of its states meanwhile.
        match a {
            SignalAction::Construct => {
                g.sink.publish(if i % 2 == 0 { Ok(()) } else { Err(SinkError::ConstructionFailed) });
                g.sink.finish(&mut ctx, Ok(()));
            }
            SignalAction::Emit => {
                if i % 3 == 0 {
                    g.sink.finish(&mut ctx, Err(SinkError::WriteFailed));
                } else {
                    g.sink.finish(&mut ctx, Ok(()));
                }
            }
            SignalAction::Skip => {}
        }
    }

    assert_eq!(direct_results, wrapped_results);
    assert_eq!(g.inner, direct);
}

#[test]
fn deallocate_and_reallocate_pass_through() {
    let mut g = Geiger::with_alloc(CounterAllocator::new());
    let mut ctx = BusyFlag::new();

    let (m1, _) = g.allocate(&mut ctx, 4, 4);
    assert_eq!(m1, Memory { addr: 1 });

    let a = g.deallocate(&mut ctx, m1, 4, 4);
    assert_eq!(a, SignalAction::Skip);

    let (m2, _) = g.reallocate(&mut ctx, m1, 4, 4, 16);
    assert_eq!(m2, Memory { addr: 2 });

    let (m3, _) = g.allocate_zeroed(&mut ctx, 8, 8);
    assert_eq!(m3, Memory { addr: 3 });
}

#[test]
fn write_failure_is_swallowed() {
    let mut slot = SinkSlot::new();
    let mut ctx = BusyFlag::new();

    let a = slot.begin(&mut ctx);
    assert_eq!(a, SignalAction::Construct);
    slot.publish(Ok(()));
    slot.finish(&mut ctx, Ok(()));

    let a2 = slot.begin(&mut ctx);
    assert_eq!(a2, SignalAction::Emit);
    slot.finish(&mut ctx, Err(SinkError::WriteFailed));
    assert!(!ctx.busy);
    assert_eq!(slot.state, SinkState::Ready);

    // The failed write changed nothing: the next event emits again.
    let a3 = slot.begin(&mut ctx);
    assert_eq!(a3, SignalAction::Emit);
    slot.finish(&mut ctx, Ok(()));
}

#[test]
fn startup_source_hands_off_once() {
    let origin: usize = 7;
    let mut src = BusySource::new(origin);
    assert_eq!(src.channels(), 1);
    assert_eq!(src.sample_rate(), 1);
    assert!(src.current_frame_len().is_none());
    assert!(src.total_duration().is_none());

    // Pulled on the constructing context: silence, no hand-off.
    let mut origin_ctx = BusyFlag::new();
    assert_eq!(src.next(&mut origin_ctx, origin), BusyStep::Silence);
    assert_eq!(src.next(&mut origin_ctx, origin), BusyStep::Silence);
    assert!(!origin_ctx.busy);

    // First pull on the playback context: its flag is raised for good and
    // the rendezvous is released exactly once.
    let mut playback_ctx = BusyFlag::new();
    let playback: usize = 9;
    assert_eq!(src.next(&mut playback_ctx, playback), BusyStep::Finish);
    assert!(playback_ctx.busy);
    assert_eq!(src.next(&mut playback_ctx, playback), BusyStep::Done);
    assert!(playback_ctx.busy);
}
