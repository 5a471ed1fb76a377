//! Helper module of the stack.
//!
//! The stack region is a fixed-size backing buffer with a canary word kept
//! immediately before it.  Addresses are expressed relative to the start
//! of the region (the canary word), so all derived values are plain
//! arithmetic over the buffer size; the embedding program adds the
//! region's placement when it needs absolute addresses, and hands in the
//! live stack pointer for the sanity checks.

use vstd::prelude::*;

verus! {

/// Canary value at the bottom of the stack to detect overflows.
pub const CANARY: u64 = 0x13371337_deadbeef;

/// Alignment of the stack region.
pub const ALIGNMENT: u64 = 16;

/// Size in bytes of the canary word that precedes the usable buffer.
pub const CANARY_SIZE: u64 = 8;

/// Offset of the first stack argument after the return address; on x86
/// the stack pointer must be 16-byte aligned 8 bytes under the call.
pub const FIRST_PARAMETER_OFFSET: u64 = 8;

/// Minimum stack size.
pub const MIN_STACK_SIZE: usize = 16;

/// Default stack size.
pub const DEFAULT_STACK_SIZE: usize = 0x10000;

/// Error that indicates the stack canary was violated.
#[derive(Debug, Copy, Clone, PartialEq, Eq, Structural)]
pub struct CanaryMismatchError {
    /// The canary value that was written at construction.
    pub expected: u64,
    /// The value actually found in the canary word.
    pub actual: u64,
}

/// Properly aligned backing memory for a stack of `N` usable bytes,
/// guarded by a canary word immediately below the usable space.
#[derive(Debug)]
pub struct Stack<const N: usize> {
    /// The canary word; [`CANARY`] unless something overflowed into it.
    pub canary: u64,
    pub stack: [u8; N],
}

impl<const N: usize> Stack<N> {
    /// Inclusive bottom of the usable stack, relative to the region start.
    pub open spec fn spec_bottom(&self) -> int {
        CANARY_SIZE as int
    }

    /// Exclusive top of the usable stack, relative to the region start.
    pub open spec fn spec_top(&self) -> int {
        CANARY_SIZE + N
    }

    /// The top address adjusted so that a call through this stack lands
    /// with the ABI-mandated alignment.
    pub open spec fn spec_adjusted_top(&self) -> int {
        self.spec_top() - ALIGNMENT + FIRST_PARAMETER_OFFSET
    }

    /// Constructs a new stack with an intact canary and a zeroed buffer.
    pub fn new() -> (r: Self)
        requires
            MIN_STACK_SIZE <= N,
            N <= usize::MAX - CANARY_SIZE,
        ensures
            r.canary == CANARY,
            r.stack@ == Seq::new(N as nat, |i: int| 0u8),
    {
        let s = Stack { canary: CANARY, stack: [0; N] };
        proof {
            assert(s.stack@ =~= Seq::new(N as nat, |i: int| 0u8));
        }
        s
    }

    /// Returns the exclusive top address of the stack.
    pub fn top(&self) -> (r: u64)
        requires
            MIN_STACK_SIZE <= N,
            N <= usize::MAX - CANARY_SIZE,
            N + CANARY_SIZE <= u64::MAX,
        ensures
            r == self.spec_top(),
    {
        self.bottom() + (N as u64)
    }

    /// Returns the top address of the stack that is properly aligned.
    /// On x86, the stack must be 16-byte aligned 8 bytes under the
    /// current stack pointer.  This way, the first stack argument after
    /// the return address is aligned.
    pub fn adjusted_top(&self) -> (r: u64)
        requires
            MIN_STACK_SIZE <= N,
            N <= usize::MAX - CANARY_SIZE,
            N + CANARY_SIZE <= u64::MAX,
        ensures
            r == self.spec_adjusted_top(),
    {
        self.top() - ALIGNMENT + FIRST_PARAMETER_OFFSET
    }

    /// Returns the inclusive bottom address of the usable stack.
    pub fn bottom(&self) -> (r: u64)
        ensures
            r == self.spec_bottom(),
    {
        CANARY_SIZE
    }

    /// Returns the usable size of the stack, the span between its bottom
    /// and its adjusted top.
    pub fn usable_size(&self) -> (r: u64)
        requires
            MIN_STACK_SIZE <= N,
            N <= usize::MAX - CANARY_SIZE,
            N + CANARY_SIZE <= u64::MAX,
        ensures
            r == self.spec_adjusted_top() - self.spec_bottom(),
    {
        self.adjusted_top() - self.bottom()
    }

    /// Returns the current value from the stack at the position where the
    /// canary is supposed to be.
    pub fn current_canary(&self) -> (r: u64)
        ensures
            r == self.canary,
    {
        self.canary
    }

    /// Verifies if the canary is still correct.
    pub fn check_canary(&self) -> (r: Result<(), CanaryMismatchError>)
        ensures
            self.canary == CANARY <==> r is Ok,
            r matches Err(e) ==> e == (CanaryMismatchError {
                expected: CANARY,
                actual: self.canary,
            }),
    {
        let actual = self.current_canary();
        if actual == CANARY {
            Ok(())
        } else {
            Err(CanaryMismatchError { expected: CANARY, actual })
        }
    }

    /// Sanity checks for the stack: the canary is intact and the given
    /// live stack pointer lies within the usable bounds.  A failure is
    /// fatal for the boot flow; the embedding program halts on `false`.
    pub fn sanity_checks(&self, sp: u64) -> (r: bool)
        requires
            MIN_STACK_SIZE <= N,
            N <= usize::MAX - CANARY_SIZE,
            N + CANARY_SIZE <= u64::MAX,
        ensures
            r == (self.canary == CANARY && self.spec_bottom() <= sp < self.spec_top()),
    {
        let canary_ok = self.check_canary().is_ok();
        canary_ok && self.bottom() <= sp && sp < self.top()
    }

    /// Returns the current stack usage in bytes for the given live stack
    /// pointer.
    pub fn usage(&self, sp: u64) -> (r: u64)
        requires
            MIN_STACK_SIZE <= N,
            N <= usize::MAX - CANARY_SIZE,
            N + CANARY_SIZE <= u64::MAX,
            self.spec_bottom() <= sp <= self.spec_top(),
        ensures
            r == self.spec_top() - sp,
    {
        self.top() - sp
    }
}

} // verus!
