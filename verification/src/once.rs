//! A cell for a value that is set exactly once.

use vstd::prelude::*;

verus! {

/// A cell for an eventually initialized value.
///
/// The boot flow configures a handful of process-wide values (the load
/// offset, the boot environment) exactly once and reads them forever
/// after.  Reading before initialization, or initializing twice, is a
/// programming error, not a recoverable condition; [`Once::try_init`]
/// makes a second initialization observable to the caller.
#[derive(Debug)]
pub struct Once<T> {
    value: Option<T>,
}

impl<T> Once<T> {
    /// True once a value has been stored.
    pub closed spec fn is_init(&self) -> bool {
        self.value is Some
    }

    /// The stored value.
    pub closed spec fn spec_value(&self) -> T {
        self.value->0
    }

    /// Constructor.
    pub fn new() -> (r: Self)
        ensures
            !r.is_init(),
    {
        Once { value: None }
    }

    /// Initializes the value.  Must be called exactly once.
    pub fn init(&mut self, val: T)
        requires
            !old(self).is_init(),
        ensures
            final(self).is_init(),
            final(self).spec_value() == val,
    {
        self.value = Some(val);
    }

    /// Guarded variant of [`Once::init`]: when a value is already stored,
    /// the new value is handed back instead of overwriting it.
    pub fn try_init(&mut self, val: T) -> (r: Result<(), T>)
        ensures
            old(self).is_init() ==> (r matches Err(v) && v == val && *final(self) == *old(self)),
            !old(self).is_init() ==> r is Ok && final(self).is_init() && final(self).spec_value()
                == val,
    {
        if self.value.is_some() {
            Err(val)
        } else {
            self.value = Some(val);
            Ok(())
        }
    }

    /// True once a value has been stored.
    pub fn is_initialized(&self) -> (r: bool)
        ensures
            r == self.is_init(),
    {
        self.value.is_some()
    }

    /// Borrows the stored value.  Must not run before initialization.
    pub fn get(&self) -> (r: &T)
        requires
            self.is_init(),
        ensures
            *r == self.spec_value(),
    {
        self.value.as_ref().unwrap()
    }
}

} // verus!
