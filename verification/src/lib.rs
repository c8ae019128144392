//! An allocator instrumentation core: every allocator event may trigger an
//! audible signal, like a Geiger counter for memory traffic.
//!
//! The library holds the logic of the signal path — the per-context
//! reentrancy guard, the race-safe one-time bring-up of the signal sink, the
//! pass-through allocator wrapper, and the pulse waveform — as a verified
//! state machine over plain values. The unverified audio layer around it
//! drives the real device, performs the [`sink::SignalAction`]s this library
//! hands out, and reports outcomes back.

pub mod allocator;
pub mod geiger;
pub mod guard;
pub mod pulse;
pub mod sink;
pub mod source;
