//! The one-shot bootstrap heap arena.
//!
//! A single static byte buffer is handed once to the global allocator;
//! afterwards dynamic allocation works until the arena is exhausted.  The
//! allocator itself has no double-initialization detection, so the
//! hand-over must happen exactly once and before the first allocation.
//! [`Heap`] is the record of that hand-over: the embedding program asks it
//! first and binds the allocator only when the guard agrees.

use vstd::prelude::*;

verus! {

/// The bootstrap heap arena was already bound to the allocator; the
/// rejected region is handed back to the caller.
#[derive(Debug, Copy, Clone, PartialEq, Eq, Structural)]
pub struct HeapAlreadyInitializedError {
    /// Start address of the rejected arena.
    pub base: u64,
    /// Size in bytes of the rejected arena.
    pub size: u64,
}

/// Guard that records the one-time hand-over of the arena.
#[derive(Debug)]
pub struct Heap {
    base: u64,
    size: u64,
    initialized: bool,
}

impl Heap {
    /// True once the arena has been handed to the allocator.
    pub closed spec fn is_initialized(&self) -> bool {
        self.initialized
    }

    /// Start address of the arena.
    pub closed spec fn spec_base(&self) -> u64 {
        self.base
    }

    /// Size in bytes of the arena.
    pub closed spec fn spec_size(&self) -> u64 {
        self.size
    }

    /// A fresh guard: no arena bound yet.
    pub fn new() -> (r: Self)
        ensures
            !r.is_initialized(),
    {
        Heap { base: 0, size: 0, initialized: false }
    }

    /// Records the hand-over of the arena at `base` with `size` bytes.
    /// Must run exactly once, strictly before the first allocation; a
    /// second run is undefined behavior on the allocator's side, which
    /// [`Heap::try_init`] makes observable instead.
    pub fn init(&mut self, base: u64, size: u64)
        requires
            !old(self).is_initialized(),
        ensures
            final(self).is_initialized(),
            final(self).spec_base() == base,
            final(self).spec_size() == size,
    {
        self.base = base;
        self.size = size;
        self.initialized = true;
    }

    /// Guarded variant of [`Heap::init`]: a second hand-over reports the
    /// double initialization instead of going through with it.
    pub fn try_init(&mut self, base: u64, size: u64) -> (r: Result<
        (),
        HeapAlreadyInitializedError,
    >)
        ensures
            old(self).is_initialized() ==> r == Result::<(), HeapAlreadyInitializedError>::Err(
                HeapAlreadyInitializedError { base, size },
            ) && *final(self) == *old(self),
            !old(self).is_initialized() ==> r is Ok && final(self).is_initialized()
                && final(self).spec_base() == base && final(self).spec_size() == size,
    {
        if self.initialized {
            Err(HeapAlreadyInitializedError { base, size })
        } else {
            self.init(base, size);
            Ok(())
        }
    }

    /// Start address of the arena.
    pub fn base(&self) -> (r: u64)
        requires
            self.is_initialized(),
        ensures
            r == self.spec_base(),
    {
        self.base
    }

    /// Size in bytes of the arena.
    pub fn size(&self) -> (r: u64)
        requires
            self.is_initialized(),
        ensures
            r == self.spec_size(),
    {
        self.size
    }
}

} // verus!
