use vstd::prelude::*;

verus! {

/// Identifier of a game object (the engine's entity bits).
#[derive(Clone, Copy, Debug, PartialEq, Eq, Structural)]
pub struct EntityId(pub u64);

impl EntityId {
    /// The placeholder identifier, bits zero.
    pub fn placeholder() -> (r: EntityId)
        ensures
            r.0 == 0,
    {
        EntityId(0)
    }
}

} // verus!
