use vstd::prelude::*;

verus! {

/// A skill that creatures have to some degree.
#[derive(Clone, Copy, Debug, Hash, PartialEq, Eq, Structural)]
pub enum SkillType {
    GrowingPlants,
    Building,
    /// For work that calls for no particular skill.
    Unskilled,
}

} // verus!
