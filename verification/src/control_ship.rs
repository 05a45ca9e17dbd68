use vstd::prelude::*;

verus! {

/// A controller asks its ships to fire.
#[derive(Clone, Copy, Debug, PartialEq, Eq, Structural)]
pub struct Shoot {
    /// Handle of the controller that asks.
    pub controller: u64,
}

} // verus!
