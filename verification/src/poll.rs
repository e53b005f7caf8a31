//! The readiness signal shared by both execution protocols.

use vstd::prelude::*;

verus! {

/// What one drive of either protocol reports: the driven operation has
/// produced its value, or the caller must drive again after the next wake.
#[derive(Clone, Copy, Debug, PartialEq, Eq)]
pub enum Poll<T> {
    /// The value is ready.
    Ready(T),
    /// Not ready yet; drive again later.
    Pending,
}

} // verus!
