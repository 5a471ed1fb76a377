//! Link-address to load-address translation.
//!
//! The loader is linked at one address and executes at another; the
//! difference is a single signed 64-bit load offset that the entry stub
//! hands over exactly once.  [`Memory`] owns that offset and answers all
//! translation questions from it.

use vstd::prelude::*;

pub mod heap;
pub mod paging;
pub mod stack;

verus! {

use crate::mem::paging::{PhysAddr, VirtAddr};

/// Owner of the one-time configured load offset of the loader.
///
/// `runtime address == link address + offset`; the offset may be negative
/// when the loader is placed below its link address.
pub struct Memory {
    load_offset: Option<i64>,
}

impl Memory {
    /// True once the load offset has been configured.
    pub closed spec fn is_configured(&self) -> bool {
        self.load_offset is Some
    }

    /// The configured load offset.
    pub closed spec fn spec_offset(&self) -> i64 {
        self.load_offset->0
    }

    /// A fresh, not yet configured translator.
    pub fn new() -> (r: Self)
        ensures
            !r.is_configured(),
    {
        Memory { load_offset: None }
    }

    /// Records the load offset.  Must run exactly once, before any
    /// translation; a second configuration is a programming error that
    /// [`Memory::try_init`] makes observable.
    pub fn init(&mut self, load_offset: i64)
        requires
            !old(self).is_configured(),
        ensures
            final(self).is_configured(),
            final(self).spec_offset() == load_offset,
    {
        self.load_offset = Some(load_offset);
    }

    /// Guarded variant of [`Memory::init`]: a second call reports the
    /// double initialization instead of going through with it.
    pub fn try_init(&mut self, load_offset: i64) -> (r: Result<(), i64>)
        ensures
            old(self).is_configured() ==> r == Result::<(), i64>::Err(load_offset)
                && *final(self) == *old(self),
            !old(self).is_configured() ==> r == Result::<(), i64>::Ok(())
                && final(self).is_configured()
                && final(self).spec_offset() == load_offset,
    {
        if self.load_offset.is_some() {
            Err(load_offset)
        } else {
            self.load_offset = Some(load_offset);
            Ok(())
        }
    }

    /// Returns the load offset of the loader in physical memory.
    pub fn load_offset(&self) -> (r: i64)
        requires
            self.is_configured(),
        ensures
            r == self.spec_offset(),
    {
        self.load_offset.unwrap()
    }

    /// Translates the virtual link address to a physical address in memory.
    ///
    /// The sum is exact for every offset, including negative offsets that
    /// place the result below the link address.
    pub fn virt_to_phys(&self, virt: VirtAddr) -> (r: PhysAddr)
        requires
            self.is_configured(),
            0 <= virt.spec_val() + self.spec_offset() <= u64::MAX,
        ensures
            r.spec_val() == virt.spec_val() + self.spec_offset(),
    {
        let offset = self.load_offset();
        PhysAddr::new(virt.val().wrapping_add_signed(offset))
    }
}

} // verus!
