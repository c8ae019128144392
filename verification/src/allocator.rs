//! The underlying allocator, as the wrapper sees it.
//!
//! The wrapper never interprets the blocks the underlying allocator hands
//! out; it only forwards requests and returns results unchanged. The
//! [`RawAllocator`] trait captures that collaborator: an implementor
//! describes its own behaviour with the spec functions, and the exec methods
//! promise to return exactly the described result and to leave the allocator
//! in exactly the described state. [`CounterAllocator`] is a small
//! deterministic implementation used to exercise the wrapper.

use vstd::prelude::*;

verus! {

/// A handle to one block handed out by the underlying allocator.
#[derive(Clone, Copy, PartialEq, Eq, Structural, Debug)]
pub struct Memory {
    /// The address, or token, identifying the block.
    pub addr: usize,
}

/// The four standard allocation primitives, with size-and-alignment
/// semantics left entirely to the implementor: each implementor pins its own
/// results and state transitions through the spec functions, and the wrapper
/// promises to preserve them untouched.
pub trait RawAllocator: Sized {
    /// The block `allocate` returns for this request.
    spec fn allocate_result(self, size: usize, align: usize) -> Memory;

    /// The allocator's state after `allocate`.
    spec fn allocate_next(self, size: usize, align: usize) -> Self;

    /// The block `allocate_zeroed` returns for this request.
    spec fn allocate_zeroed_result(self, size: usize, align: usize) -> Memory;

    /// The allocator's state after `allocate_zeroed`.
    spec fn allocate_zeroed_next(self, size: usize, align: usize) -> Self;

    /// The allocator's state after `deallocate`.
    spec fn deallocate_next(self, m: Memory, size: usize, align: usize) -> Self;

    /// The block `reallocate` returns for this request.
    spec fn reallocate_result(self, m: Memory, size: usize, align: usize, new_size: usize) -> Memory;

    /// The allocator's state after `reallocate`.
    spec fn reallocate_next(self, m: Memory, size: usize, align: usize, new_size: usize) -> Self;

    /// Allocate a block of `size` bytes aligned to `align`.
    fn allocate(&mut self, size: usize, align: usize) -> (m: Memory)
        ensures
            m == old(self).allocate_result(size, align),
            *final(self) == old(self).allocate_next(size, align),
    ;

    /// Allocate a zero-filled block of `size` bytes aligned to `align`.
    fn allocate_zeroed(&mut self, size: usize, align: usize) -> (m: Memory)
        ensures
            m == old(self).allocate_zeroed_result(size, align),
            *final(self) == old(self).allocate_zeroed_next(size, align),
    ;

    /// Return the block `m`, which was allocated with `size` and `align`.
    fn deallocate(&mut self, m: Memory, size: usize, align: usize)
        ensures
            *final(self) == old(self).deallocate_next(m, size, align),
    ;

    /// Resize the block `m` from `size` to `new_size` bytes, keeping `align`.
    fn reallocate(&mut self, m: Memory, size: usize, align: usize, new_size: usize) -> (r: Memory)
        ensures
            r == old(self).reallocate_result(m, size, align, new_size),
            *final(self) == old(self).reallocate_next(m, size, align, new_size),
    ;
}

/// A deterministic model allocator: it hands out distinct tokens from a
/// running counter and forgets deallocations. It stands in for the real
/// system allocator wherever the wrapper's pass-through behaviour is
/// exercised.
#[derive(Clone, Copy, PartialEq, Eq, Structural, Debug)]
pub struct CounterAllocator {
    /// The token the next allocation will receive.
    pub next_addr: usize,
}

impl CounterAllocator {
    /// Tokens start at one, leaving zero for "no block".
    pub fn new() -> (a: CounterAllocator)
        ensures
            a.next_addr == 1,
    {
        CounterAllocator { next_addr: 1 }
    }

    /// The state after handing out one token: the counter steps on, wrapping
    /// back to one rather than overflowing.
    pub open spec fn bumped(self) -> CounterAllocator {
        if self.next_addr == usize::MAX {
            CounterAllocator { next_addr: 1 }
        } else {
            CounterAllocator { next_addr: (self.next_addr + 1) as usize }
        }
    }

    fn bump(&mut self)
        ensures
            *final(self) == old(self).bumped(),
    {
        if self.next_addr == usize::MAX {
            self.next_addr = 1;
        } else {
            self.next_addr = self.next_addr + 1;
        }
    }
}

impl RawAllocator for CounterAllocator {
    open spec fn allocate_result(self, size: usize, align: usize) -> Memory {
        Memory { addr: self.next_addr }
    }

    open spec fn allocate_next(self, size: usize, align: usize) -> CounterAllocator {
        self.bumped()
    }

    open spec fn allocate_zeroed_result(self, size: usize, align: usize) -> Memory {
        Memory { addr: self.next_addr }
    }

    open spec fn allocate_zeroed_next(self, size: usize, align: usize) -> CounterAllocator {
        self.bumped()
    }

    open spec fn deallocate_next(self, m: Memory, size: usize, align: usize) -> CounterAllocator {
        self
    }

    open spec fn reallocate_result(
        self,
        m: Memory,
        size: usize,
        align: usize,
        new_size: usize,
    ) -> Memory {
        Memory { addr: self.next_addr }
    }

    open spec fn reallocate_next(
        self,
        m: Memory,
        size: usize,
        align: usize,
        new_size: usize,
    ) -> CounterAllocator {
        self.bumped()
    }

    fn allocate(&mut self, _size: usize, _align: usize) -> (m: Memory) {
        let m = Memory { addr: self.next_addr };
        self.bump();
        m
    }

    fn allocate_zeroed(&mut self, _size: usize, _align: usize) -> (m: Memory) {
        let m = Memory { addr: self.next_addr };
        self.bump();
        m
    }

    fn deallocate(&mut self, _m: Memory, _size: usize, _align: usize) {
    }

    fn reallocate(&mut self, _m: Memory, _size: usize, _align: usize, _new_size: usize) -> (r: Memory) {
        let r = Memory { addr: self.next_addr };
        self.bump();
        r
    }
}

} // verus!
