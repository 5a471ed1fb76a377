//! Module for [`Safe`].

use vstd::prelude::*;

verus! {

/// Marker wrapper for values that the loader shares globally.
///
/// The boot flow runs on a single core with no preemption and no
/// interrupts, so program-order discipline is the only synchronization it
/// has or needs.  The embedding program wraps its process-wide state in
/// this type to record that claim; the interior-mutability and sharing
/// shims that only unverified code may provide live with the embedder.
#[derive(Debug)]
pub struct Safe<T>(pub T);

impl<T> Safe<T> {
    /// Constructor.
    pub fn new(t: T) -> (r: Self)
        ensures
            r.0 == t,
    {
        Safe(t)
    }

    /// Borrows the wrapped value.
    pub fn get(&self) -> (r: &T)
        ensures
            *r == self.0,
    {
        &self.0
    }
}

} // verus!
