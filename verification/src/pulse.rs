//! The pulse waveform: one audible click, shaped as a normalized sinc pulse.
//!
//! The pulse is a finite, deterministic sequence of samples indexed over a
//! symmetric integer range. The library fixes the indexing and the symbolic
//! sample at each index — the peak at the center, a sinc value everywhere
//! else — as plain values; the audio layer turns each [`PulseSample`] into
//! the floating-point amplitude `sin(x)/x * peak` with `x` the index scaled
//! by the fixed period.

use vstd::prelude::*;

verus! {

/// Samples per second of the pulse waveform.
pub const SAMPLE_RATE: u32 = 48000;

/// Length of one sinc period, in milliseconds.
pub const PERIOD_MILLIS: u32 = 4;

/// Samples in one sinc period.
pub const PERIOD_SAMPLES: u32 = SAMPLE_RATE / (PERIOD_MILLIS * 1000);

/// The pulse spans four sinc periods on each side of the peak.
pub const HALF_SPAN: u32 = PERIOD_SAMPLES * 4;

/// One sample of the pulse, described symbolically.
#[derive(Clone, Copy, PartialEq, Eq, Structural, Debug)]
pub enum PulseSample {
    /// The center sample, at full peak amplitude.
    Peak,
    /// The off-center sample at signed index `i`: amplitude `sin(x)/x`
    /// scaled by the peak, with `x` proportional to `i`.
    Sinc(i16),
}

/// The sample emitted at signed index `i`.
pub open spec fn sample_at(i: int) -> PulseSample {
    if i == 0 {
        PulseSample::Peak
    } else {
        PulseSample::Sinc(i as i16)
    }
}

/// The whole pulse: the samples at indices `-HALF_SPAN` up to `HALF_SPAN`,
/// in order. A single fixed sequence — the waveform for the fixed parameters
/// is deterministic.
pub open spec fn pulse_samples() -> Seq<PulseSample> {
    Seq::new((2 * (HALF_SPAN as int)) as nat, |k: int| sample_at(k - HALF_SPAN as int))
}

/// The fixed parameters, evaluated: twelve samples per period, the pulse
/// half-span four periods wide.
pub proof fn lemma_pulse_constants()
    ensures
        PERIOD_SAMPLES == 12,
        HALF_SPAN == 48,
{
    assert(PERIOD_MILLIS * 1000 == 4000);
    assert(48000u32 / 4000u32 == 12);
}

/// A cursor over one pulse, consumed once per signal emission and
/// reconstructed fresh for the next.
pub struct Pulse {
    /// The signed index of the next sample to emit.
    pub cursor: i16,
    /// One past the last index.
    pub end: i16,
}

impl Pulse {
    /// The samples this pulse will still emit.
    pub open spec fn remaining(self) -> Seq<PulseSample> {
        if self.cursor <= self.end {
            Seq::new(
                (self.end - self.cursor) as nat,
                |k: int| sample_at(self.cursor as int + k),
            )
        } else {
            Seq::empty()
        }
    }

    /// A fresh pulse. Every fresh pulse holds the same cursor bounds, and so
    /// emits exactly [`pulse_samples`]: reconstruction reproduces the
    /// waveform sample for sample.
    pub fn new() -> (p: Pulse)
        ensures
            p.cursor == -(HALF_SPAN as int),
            p.end == HALF_SPAN as int,
            p.remaining() == pulse_samples(),
    {
        proof {
            lemma_pulse_constants();
        }
        let span: i16 = HALF_SPAN as i16;
        let p = Pulse { cursor: -span, end: span };
        proof {
            assert(p.remaining() =~= pulse_samples());
        }
        p
    }

    /// Emit the next sample, stepping the cursor; `None` once the pulse is
    /// exhausted, forever after.
    pub fn next(&mut self) -> (s: Option<PulseSample>)
        ensures
            old(self).cursor >= old(self).end ==> s is None && *final(self) == *old(self),
            old(self).cursor < old(self).end ==> {
                &&& s == Some(sample_at(old(self).cursor as int))
                &&& final(self).cursor == old(self).cursor + 1
                &&& final(self).end == old(self).end
                &&& final(self).remaining() == old(self).remaining().drop_first()
            },
    {
        if self.cursor < self.end {
            let i = self.cursor;
            self.cursor = i + 1;
            proof {
                assert(self.remaining() =~= old(self).remaining().drop_first());
            }
            if i == 0 {
                Some(PulseSample::Peak)
            } else {
                Some(PulseSample::Sinc(i))
            }
        } else {
            None
        }
    }

    /// The pulse is mono.
    pub fn channels(&self) -> (c: u16)
        ensures
            c == 1,
    {
        1
    }

    /// The pulse plays at the fixed sample rate.
    pub fn sample_rate(&self) -> (r: u32)
        ensures
            r == SAMPLE_RATE,
    {
        SAMPLE_RATE
    }

    /// The pulse has no frame boundary of its own.
    pub fn current_frame_len(&self) -> (l: Option<usize>)
        ensures
            l is None,
    {
        None
    }

    /// The pulse announces no duration; its end is reaching the last index.
    pub fn total_duration(&self) -> (d: Option<core::time::Duration>)
        ensures
            d is None,
    {
        None
    }
}

/// The waveform for the fixed parameters (48 kHz rate, 4 ms period) is
/// finite and deterministic: it is one fixed sequence, eight periods — 96
/// samples — long, whose sample at each position is pinned by its index
/// alone.
pub proof fn lemma_pulse_finite_deterministic()
    ensures
        pulse_samples().len() == 8 * (PERIOD_SAMPLES as int),
        pulse_samples().len() == 96,
        forall|k: int|
            0 <= k < pulse_samples().len() ==> #[trigger] pulse_samples()[k] == sample_at(
                k - HALF_SPAN as int,
            ),
{
    lemma_pulse_constants();
}

} // verus!
