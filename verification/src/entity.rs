use vstd::prelude::*;

verus! {

/// An entity of the game world, by the bits of its ECS identifier.
#[derive(Clone, Copy, Debug, Hash, PartialEq, Eq, Structural)]
pub struct EntityId(pub u64);

} // verus!
