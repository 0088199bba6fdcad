use crate::entity::EntityId;
use vstd::prelude::*;

verus! {

/// Marks an entity as a construction site.
#[derive(Clone, Copy, Debug, PartialEq, Eq, Structural)]
pub struct ConstructionSite;

/// Marks an entity as a finished building.
#[derive(Clone, Copy, Debug, PartialEq, Eq, Structural)]
pub struct Building;

/// Identifier of a building prefab.
#[derive(Clone, Copy, Debug, Hash, PartialEq, Eq, Structural)]
pub struct BuildingPrefabId(pub u32);

/// Texture paths of a building prefab as written in prefab files.
#[derive(Clone, Debug)]
pub struct BuildingTextureSetRaw {
    pub in_progress: Vec<String>,
    pub completed: String,
}

/// A creature taking part in a construction.
#[derive(Clone, Copy, Debug, Hash, PartialEq, Eq, Structural)]
pub struct ConstructedBy(pub EntityId);

/// The creatures constructing a site, each once.
pub struct ConstructionSiteWorkers {
    workers: Vec<ConstructedBy>,
}

impl View for ConstructionSiteWorkers {
    type V = Set<ConstructedBy>;

    closed spec fn view(&self) -> Set<ConstructedBy> {
        self.workers@.to_set()
    }
}

impl ConstructionSiteWorkers {
    #[verifier::type_invariant]
    closed spec fn no_duplicates(self) -> bool {
        self.workers@.no_duplicates()
    }

    pub fn new() -> (workers: Self)
        ensures
            workers@ == Set::<ConstructedBy>::empty(),
    {
        let workers = ConstructionSiteWorkers { workers: Vec::new() };
        proof {
            assert(workers.workers@.to_set() =~= Set::<ConstructedBy>::empty());
        }
        workers
    }

    fn index_of(&self, worker: ConstructedBy) -> (found: Option<usize>)
        ensures
            match found {
                Some(i) => i < self.workers@.len() && self.workers@[i as int] == worker,
                None => !self.workers@.contains(worker),
            },
    {
        let mut k: usize = 0;
        while k < self.workers.len()
            invariant
                k <= self.workers@.len(),
                forall|j: int| 0 <= j < k ==> self.workers@[j] != worker,
            decreases self.workers@.len() - k,
        {
            if self.workers[k] == worker {
                return Some(k);
            }
            k = k + 1;
        }
        None
    }

    pub fn contains(&self, worker: ConstructedBy) -> (present: bool)
        ensures
            present == self@.contains(worker),
    {
        match self.index_of(worker) {
            Some(_) => true,
            None => false,
        }
    }

    pub fn is_empty(&self) -> (empty: bool)
        ensures
            empty == (self@ == Set::<ConstructedBy>::empty()),
    {
        proof {
            if self.workers@.len() > 0 {
                assert(self@.contains(self.workers@[0]));
            } else {
                assert(self.workers@.to_set() =~= Set::<ConstructedBy>::empty());
            }
        }
        self.workers.len() == 0
    }

    /// Adds a worker; a worker already present is not added again.
    pub fn insert(&mut self, worker: ConstructedBy)
        ensures
            final(self)@ == old(self)@.insert(worker),
    {
        proof {
            use_type_invariant(&*self);
        }
        if self.index_of(worker).is_none() {
            let ghost w0 = self.workers@;
            let mut workers = Vec::new();
            std::mem::swap(&mut workers, &mut self.workers);
            workers.push(worker);
            proof {
                assert(workers@ == w0.push(worker));
                assert(workers@.no_duplicates()) by {
                    assert forall|i: int, j: int| 0 <= i < workers@.len() && 0 <= j < workers@.len() && i != j implies workers@[i] != workers@[j] by {
                        if i == w0.len() as int {
                            assert(w0.contains(workers@[j]));
                        } else if j == w0.len() as int {
                            assert(w0.contains(workers@[i]));
                        }
                    }
                }
                assert forall|x: ConstructedBy| workers@.to_set().contains(x) <==> w0.to_set().insert(worker).contains(x) by {
                    if workers@.contains(x) && x != worker {
                        let a = choose|a: int| 0 <= a < workers@.len() && workers@[a] == x;
                        assert(a < w0.len());
                        assert(w0[a] == x);
                    }
                    if w0.contains(x) {
                        let a = choose|a: int| 0 <= a < w0.len() && w0[a] == x;
                        assert(workers@[a] == x);
                    }
                    if x == worker {
                        assert(workers@[w0.len() as int] == x);
                    }
                }
                assert(workers@.to_set() =~= w0.to_set().insert(worker));
            }
            self.workers = workers;
        } else {
            proof {
                assert(self.workers@.to_set() =~= self.workers@.to_set().insert(worker));
            }
        }
    }

    /// Removes a worker, when present.
    pub fn remove(&mut self, worker: ConstructedBy)
        ensures
            final(self)@ == old(self)@.remove(worker),
    {
        proof {
            use_type_invariant(&*self);
        }
        match self.index_of(worker) {
            Some(i) => {
                let ghost w0 = self.workers@;
                let mut workers = Vec::new();
                std::mem::swap(&mut workers, &mut self.workers);
                workers.remove(i);
                proof {
                    assert(workers@ == w0.remove(i as int));
                    assert(workers@.no_duplicates()) by {
                        assert forall|a: int, b: int| 0 <= a < workers@.len() && 0 <= b < workers@.len() && a != b implies workers@[a] != workers@[b] by {
                            let a0 = if a < i { a } else { a + 1 };
                            let b0 = if b < i { b } else { b + 1 };
                            assert(workers@[a] == w0[a0]);
                            assert(workers@[b] == w0[b0]);
                        }
                    }
                    assert forall|x: ConstructedBy| workers@.to_set().contains(x) <==> w0.to_set().remove(worker).contains(x) by {
                        if workers@.contains(x) {
                            let a = choose|a: int| 0 <= a < workers@.len() && workers@[a] == x;
                            let a0 = if a < i { a } else { a + 1 };
                            assert(w0[a0] == x);
                            assert(a0 != i);
                        }
                        if w0.contains(x) && x != worker {
                            let a0 = choose|a0: int| 0 <= a0 < w0.len() && w0[a0] == x;
                            assert(a0 != i);
                            let a = if a0 < i { a0 } else { a0 - 1 };
                            assert(workers@[a] == x);
                        }
                    }
                    assert(workers@.to_set() =~= w0.to_set().remove(worker));
                }
                self.workers = workers;
            },
            None => {
                proof {
                    assert(self.workers@.to_set() =~= self.workers@.to_set().remove(worker));
                }
            },
        }
    }

    /// The workers, each once.
    pub fn to_vec(&self) -> (workers: Vec<EntityId>)
        ensures
            workers@.len() == self@.len(),
            forall|w: EntityId| workers@.contains(w) <==> self@.contains(ConstructedBy(w)),
    {
        proof {
            use_type_invariant(self);
            self.workers@.unique_seq_to_set();
        }
        let mut out: Vec<EntityId> = Vec::new();
        let mut k: usize = 0;
        while k < self.workers.len()
            invariant
                k <= self.workers@.len(),
                out@.len() == k,
                forall|j: int| 0 <= j < k ==> out@[j] == self.workers@[j].0,
            decreases self.workers@.len() - k,
        {
            out.push(self.workers[k].0);
            k = k + 1;
        }
        proof {
            assert forall|w: EntityId| out@.contains(w) <==> self@.contains(ConstructedBy(w)) by {
                if out@.contains(w) {
                    let j = choose|j: int| 0 <= j < out@.len() && out@[j] == w;
                    assert(self.workers@[j] == ConstructedBy(w));
                }
                if self.workers@.contains(ConstructedBy(w)) {
                    let j = choose|j: int| 0 <= j < self.workers@.len() && self.workers@[j] == ConstructedBy(w);
                    assert(out@[j] == w);
                }
            }
        }
        out
    }
}

/// What the crafting process of a construction site reported for one tick.
#[derive(Clone, Copy, Debug, PartialEq, Eq, Structural)]
pub enum CraftingOutcome {
    Complete,
    Incomplete,
    InsufficientResources,
}

/// What a construction site does after a tick of work.
pub struct ConstructionTick {
    /// The creatures whose construction task is to be stopped.
    pub stopping: Vec<EntityId>,
    /// Whether the site turns into a building (and drops its workers).
    pub becomes_building: bool,
    /// Whether the site keeps its workers component, emptied.
    pub workers_released: bool,
}

/// The decisions of a construction site after its crafting process reported
/// an outcome: a completed site stops every worker and becomes a building; a
/// site short of resources stops every worker and is left with none; an
/// incomplete one carries on.
pub fn construction_tick(workers: &ConstructionSiteWorkers, outcome: CraftingOutcome) -> (tick: ConstructionTick)
    ensures
        outcome == CraftingOutcome::Incomplete ==> tick.stopping@.len() == 0,
        outcome != CraftingOutcome::Incomplete ==> {
            &&& tick.stopping@.len() == workers@.len()
            &&& forall|w: EntityId| tick.stopping@.contains(w) <==> workers@.contains(ConstructedBy(w))
        },
        tick.becomes_building == (outcome == CraftingOutcome::Complete),
        tick.workers_released == (outcome == CraftingOutcome::InsufficientResources),
{
    match outcome {
        CraftingOutcome::Complete => ConstructionTick {
            stopping: workers.to_vec(),
            becomes_building: true,
            workers_released: false,
        },
        CraftingOutcome::Incomplete => ConstructionTick {
            stopping: Vec::new(),
            becomes_building: false,
            workers_released: false,
        },
        CraftingOutcome::InsufficientResources => ConstructionTick {
            stopping: workers.to_vec(),
            becomes_building: false,
            workers_released: true,
        },
    }
}

/// Removing a worker undoes adding it, when it was not there before; adding
/// a worker twice is adding it once.
pub proof fn law_remove_undoes_insert(workers: Set<ConstructedBy>, worker: ConstructedBy)
    ensures
        !workers.contains(worker) ==> workers.insert(worker).remove(worker) == workers,
        workers.insert(worker).insert(worker) == workers.insert(worker),
{
    assert(!workers.contains(worker) ==> workers.insert(worker).remove(worker) =~= workers);
    assert(workers.insert(worker).insert(worker) =~= workers.insert(worker));
}

} // verus!
