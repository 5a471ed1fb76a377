//! Types and helpers for x86_64 4-level paging.

use vstd::prelude::*;

verus! {

/// Size in bytes of one page-table entry.
pub const PAGE_TABLE_ENTRY_SIZE: u64 = 8;

/// 9 bits select the entry of the given page table.
pub const INDEX_BITMASK: u64 = 0x1ff;

/// Page-table level, from the leaf tables (one) up to the root (four).
#[derive(Copy, Clone, Debug, PartialEq, Eq, Hash, Structural)]
pub enum Level {
    One,
    Two,
    Three,
    Four,
}

impl Level {
    /// Numeric value of the level, `1..=4`.
    pub open spec fn spec_val(self) -> u64 {
        match self {
            Level::One => 1,
            Level::Two => 2,
            Level::Three => 3,
            Level::Four => 4,
        }
    }

    /// Returns the numeric value of the level.
    #[verifier::when_used_as_spec(spec_val)]
    pub fn val(self) -> (r: u64)
        ensures
            r == self.spec_val(),
    {
        match self {
            Level::One => 1,
            Level::Two => 2,
            Level::Three => 3,
            Level::Four => 4,
        }
    }
}

/// A virtual address.
#[derive(Copy, Clone, Debug, PartialEq, Eq, Hash, Structural)]
pub struct VirtAddr(pub u64);

/// A physical address.
#[derive(Copy, Clone, Debug, PartialEq, Eq, Hash, Structural)]
pub struct PhysAddr(pub u64);

impl VirtAddr {
    /// The inner value, for use in specifications.
    pub open spec fn spec_val(self) -> u64 {
        self.0
    }

    /// Constructor.
    pub fn new(val: u64) -> (r: Self)
        ensures
            r.spec_val() == val,
    {
        VirtAddr(val)
    }

    /// Returns the inner value.
    #[verifier::when_used_as_spec(spec_val)]
    pub fn val(self) -> (r: u64)
        ensures
            r == self.spec_val(),
    {
        self.0
    }

    /// Index into the page table of the given level selected by this
    /// address, for use in specifications.
    pub open spec fn spec_pt_index(self, level: Level) -> u64 {
        (self.0 >> ((level.spec_val() - 1) * 9 + 12)) & INDEX_BITMASK
    }

    /// Returns the index into the page table of the given level.
    /// The returned value is in range `0..512`.
    pub fn pt_index(&self, level: Level) -> (r: u64)
        ensures
            r == self.spec_pt_index(level),
            r < 512,
    {
        let level: u64 = level.val();
        let bits = self.0 >> ((level - 1) * 9 + 12);
        let r = bits & INDEX_BITMASK;
        proof {
            assert(bits & 0x1ff < 512) by (bit_vector);
        }
        r
    }

    /// Returns the byte offset into the page table of the given level.
    /// The returned value is in range `0..4096`.
    pub fn pt_offset(&self, level: Level) -> (r: u64)
        ensures
            r == self.spec_pt_index(level) * PAGE_TABLE_ENTRY_SIZE,
            r < 4096,
    {
        self.pt_index(level) * PAGE_TABLE_ENTRY_SIZE
    }
}

impl From<u64> for VirtAddr {
    /// Wraps the raw address.
    fn from(val: u64) -> (r: Self) {
        VirtAddr(val)
    }
}

impl vstd::std_specs::convert::FromSpecImpl<u64> for VirtAddr {
    open spec fn obeys_from_spec() -> bool {
        true
    }

    open spec fn from_spec(val: u64) -> Self {
        VirtAddr(val)
    }
}

impl PhysAddr {
    /// The inner value, for use in specifications.
    pub open spec fn spec_val(self) -> u64 {
        self.0
    }

    /// Constructor.
    pub fn new(val: u64) -> (r: Self)
        ensures
            r.spec_val() == val,
    {
        PhysAddr(val)
    }

    /// Returns the inner value.
    #[verifier::when_used_as_spec(spec_val)]
    pub fn val(self) -> (r: u64)
        ensures
            r == self.spec_val(),
    {
        self.0
    }
}

impl From<u64> for PhysAddr {
    /// Wraps the raw address.
    fn from(val: u64) -> (r: Self) {
        PhysAddr(val)
    }
}

impl vstd::std_specs::convert::FromSpecImpl<u64> for PhysAddr {
    open spec fn obeys_from_spec() -> bool {
        true
    }

    open spec fn from_spec(val: u64) -> Self {
        PhysAddr(val)
    }
}

} // verus!
