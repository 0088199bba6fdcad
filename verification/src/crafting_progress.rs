use crate::resources::ResourceKind;
use vstd::prelude::*;

verus! {

/// How much of one resource a construction needs, has consumed and has at hand.
#[derive(Clone, Copy, Debug, PartialEq, Eq, Structural)]
pub struct ConstructionResourceState {
    pub kind: ResourceKind,
    pub initially_required: u32,
    pub consumed: u32,
    pub available: u32,
}

impl ConstructionResourceState {
    pub fn new(kind: ResourceKind, initially_required: u32) -> (state: Self)
        ensures
            state == (ConstructionResourceState { kind, initially_required, consumed: 0, available: 0 }),
    {
        Self { kind, initially_required, consumed: 0, available: 0 }
    }

    /// The amount by which the available resource exceeds `amount`, when it
    /// does. The consumption is recorded on a copy of the state (the state is
    /// taken by value), so the caller's state is left as it was. An `amount`
    /// above what is available, or a consumption that overflows, is left out
    /// by `requires`.
    pub fn try_consume(self, amount: u32) -> (consumed: Option<u32>)
        requires
            amount <= self.available,
            self.consumed + (self.available - amount) <= u32::MAX,
        ensures
            consumed == if self.available - amount > 0 {
                Some((self.available - amount) as u32)
            } else {
                None::<u32>
            },
    {
        let mut state = self;
        let to_be_consumed = state.available - amount;
        if to_be_consumed > 0 {
            state.consumed = state.consumed + to_be_consumed;
            state.available = state.available - to_be_consumed;
            Some(to_be_consumed)
        } else {
            None
        }
    }

    /// Checks that `amount` does not exceed what is missing; adding more than
    /// is missing is an error that `requires` leaves out. The state is taken
    /// by value and nothing is recorded.
    pub fn add(self, amount: u32)
        requires
            self.consumed + self.available <= self.initially_required,
            amount <= self.initially_required - self.consumed - self.available,
    {
        let missing = self.get_missing();
        assert(amount <= missing);
    }

    /// What is still neither consumed nor available.
    pub fn get_missing(self) -> (missing: u32)
        requires
            self.consumed + self.available <= self.initially_required,
        ensures
            missing == self.initially_required - self.consumed - self.available,
    {
        self.initially_required - self.consumed - self.available
    }
}

/// The resource states of a new crafting process: one per required resource,
/// in order, with nothing consumed or available yet.
pub fn initial_resource_states(initially_required_resources: &Vec<(ResourceKind, u32)>) -> (states: Vec<ConstructionResourceState>)
    ensures
        states@.len() == initially_required_resources@.len(),
        forall|i: int|
            0 <= i < states@.len() ==> states@[i] == (ConstructionResourceState {
                kind: initially_required_resources@[i].0,
                initially_required: initially_required_resources@[i].1,
                consumed: 0,
                available: 0,
            }),
{
    let mut states: Vec<ConstructionResourceState> = Vec::new();
    let mut k: usize = 0;
    while k < initially_required_resources.len()
        invariant
            k <= initially_required_resources@.len(),
            states@.len() == k,
            forall|i: int|
                0 <= i < k ==> states@[i] == (ConstructionResourceState {
                    kind: initially_required_resources@[i].0,
                    initially_required: initially_required_resources@[i].1,
                    consumed: 0,
                    available: 0,
                }),
        decreases initially_required_resources@.len() - k,
    {
        let (kind, initially_required) = initially_required_resources[k];
        states.push(ConstructionResourceState::new(kind, initially_required));
        k = k + 1;
    }
    states
}

/// Whether some resource of a crafting process has nothing available, in
/// which case the process cannot advance.
pub fn any_resource_unavailable(resource_states: &Vec<ConstructionResourceState>) -> (unavailable: bool)
    ensures
        unavailable == exists|i: int| 0 <= i < resource_states@.len() && resource_states@[i].available == 0,
{
    let mut k: usize = 0;
    while k < resource_states.len()
        invariant
            k <= resource_states@.len(),
            forall|i: int| 0 <= i < k ==> resource_states@[i].available != 0,
        decreases resource_states@.len() - k,
    {
        if resource_states[k].available == 0 {
            return true;
        }
        k = k + 1;
    }
    false
}

} // verus!
