use crate::entity::EntityId;
use vstd::prelude::*;

verus! {

/// The job of constructing buildings.
pub const BUILDING_JOB_NAME: &'static str = "Building";

/// A creature working on (or heading for) a planned work.
#[derive(Clone, Copy, Debug)]
pub struct WorkingOn {
    pub work_id: EntityId,
    pub job_id: &'static str,
}

/// Marks a creature that works on nothing.
#[derive(Clone, Copy, Debug, PartialEq, Eq, Structural)]
pub struct NotWorking;

/// Plans what the colony builds and who builds it.
#[derive(Clone, Copy, Debug, PartialEq, Eq, Structural)]
pub struct MonkeyPlanner;

impl MonkeyPlanner {
    /// Sends the first idle workers, as many as the work takes, to build it:
    /// each is then working on the work, at the building job.
    pub fn recruit_workers_to_build(self, work_id: EntityId, max_workers: u32, idle_workers: &Vec<EntityId>) -> (recruited: Vec<(EntityId, WorkingOn)>)
        ensures
            recruited@.len() == if idle_workers@.len() <= max_workers { idle_workers@.len() } else { max_workers as nat },
            forall|i: int| 0 <= i < recruited@.len() ==> {
                &&& (#[trigger] recruited@[i]).0 == idle_workers@[i]
                &&& recruited@[i].1.work_id == work_id
                &&& recruited@[i].1.job_id == BUILDING_JOB_NAME
            },
    {
        let mut recruited: Vec<(EntityId, WorkingOn)> = Vec::new();
        let mut k: usize = 0;
        while k < idle_workers.len() && (k as u64) < (max_workers as u64)
            invariant
                k <= idle_workers@.len(),
                k <= max_workers,
                recruited@.len() == k,
                forall|i: int| 0 <= i < k ==> {
                    &&& (#[trigger] recruited@[i]).0 == idle_workers@[i]
                    &&& recruited@[i].1.work_id == work_id
                    &&& recruited@[i].1.job_id == BUILDING_JOB_NAME
                },
            decreases idle_workers@.len() - k,
        {
            recruited.push((idle_workers[k], WorkingOn { work_id, job_id: BUILDING_JOB_NAME }));
            k = k + 1;
        }
        recruited
    }
}

} // verus!
