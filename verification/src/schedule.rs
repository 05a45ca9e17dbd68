use vstd::prelude::*;

verus! {

/// The stages that the systems of a running game are sorted into.
#[derive(Clone, Copy, Debug, PartialEq, Eq, Hash, Structural)]
pub enum InGameSet {
    GameInput,
    MenuInput,
    EntityUpdates,
    CollisionDetection,
    RenderSetup,
    DespawnEntities,
}

/// The order in which the stages of a running game follow each other within
/// one tick. Removal comes first, so that what the last tick's collisions
/// doomed is gone before anything reads the entities; detection comes last,
/// so that its events see every move of the tick.
pub open spec fn tick_order() -> Seq<InGameSet> {
    seq![
        InGameSet::DespawnEntities,
        InGameSet::GameInput,
        InGameSet::EntityUpdates,
        InGameSet::RenderSetup,
        InGameSet::CollisionDetection,
    ]
}

impl InGameSet {
    /// The stages of a running game in the order they run in.
    pub fn chain() -> (order: Vec<InGameSet>)
        ensures
            order@ == tick_order(),
    {
        let mut order: Vec<InGameSet> = Vec::new();
        order.push(InGameSet::DespawnEntities);
        order.push(InGameSet::GameInput);
        order.push(InGameSet::EntityUpdates);
        order.push(InGameSet::RenderSetup);
        order.push(InGameSet::CollisionDetection);
        order
    }
}

} // verus!
