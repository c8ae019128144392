//! The per-context reentrancy guard.
//!
//! Every execution context that can trigger allocator events owns one
//! [`BusyFlag`]. The flag is raised for the whole duration of a signal
//! emission on that context, so that resource use by the emission itself
//! (which goes through the same allocator) is recognized and skipped instead
//! of recursing.

use vstd::prelude::*;

verus! {

/// A per-execution-context flag guarding against recursive signal emission.
#[derive(Clone, Copy, PartialEq, Eq, Structural, Debug)]
pub struct BusyFlag {
    /// True while a signal emission is in progress on this context.
    pub busy: bool,
}

impl BusyFlag {
    /// A fresh context starts idle.
    pub fn new() -> (f: BusyFlag)
        ensures
            !f.busy,
    {
        BusyFlag { busy: false }
    }
}

} // verus!
