use vstd::prelude::*;

verus! {

/// Marks an entity that is steered by a controller.
#[derive(Clone, Copy, Debug, PartialEq, Eq, Structural)]
pub struct Pawn {
    /// Handle of the controlling entity.
    pub controller: u64,
}

} // verus!
