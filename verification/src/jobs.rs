use crate::entity::EntityId;
use vstd::prelude::*;

verus! {

/// Equality of string slices (`<str as PartialEq>::eq` of std): true exactly
/// when the two hold the same characters.
#[verifier::external_body]
fn str_eq(a: &str, b: &str) -> (equal: bool)
    ensures
        equal == (a@ == b@),
{
    a == b
}

/// The skill that a job calls for.
#[derive(Clone, Copy, Debug, Hash, PartialEq, Eq, Structural)]
pub enum SkillType {
    PlantingCrops,
    Harvesting,
    Crafting,
    Building,
}

/// A kind of work that workers can be assigned to.
#[derive(Clone, Copy, Debug)]
pub struct Job {
    pub id: &'static str,
    pub name: &'static str,
    pub skill_type: SkillType,
}

impl Job {
    /// A job whose id is its name.
    pub fn new(name: &'static str, skill_type: SkillType) -> (job: Self)
        ensures
            job.id == name,
            job.name == name,
            job.skill_type == skill_type,
    {
        Self { id: name, name, skill_type }
    }
}

/// The workers of a work process: those at work, and those on their way
/// (tentative), with the job and the most workers it takes.
#[derive(Debug)]
pub struct WorkerRoster {
    pub job_id: &'static str,
    pub max_workers: usize,
    pub worker_ids: Vec<EntityId>,
    pub tentative_worker_ids: Vec<EntityId>,
}

/// The roster takes another worker.
pub open spec fn has_capacity_spec(r: WorkerRoster) -> bool {
    r.max_workers > r.worker_ids@.len() + r.tentative_worker_ids@.len()
}

/// The roster holds no more workers than it takes.
pub open spec fn within_capacity(r: WorkerRoster) -> bool {
    r.worker_ids@.len() + r.tentative_worker_ids@.len() <= r.max_workers
}

/// `s` without any occurrence of `x`, in order.
pub open spec fn without(s: Seq<EntityId>, x: EntityId) -> Seq<EntityId>
    decreases s.len(),
{
    if s.len() == 0 {
        s
    } else if s.last() == x {
        without(s.drop_last(), x)
    } else {
        without(s.drop_last(), x).push(s.last())
    }
}

proof fn lemma_without_len(s: Seq<EntityId>, x: EntityId)
    ensures
        without(s, x).len() <= s.len(),
        s.contains(x) ==> without(s, x).len() < s.len(),
    decreases s.len(),
{
    if s.len() > 0 {
        lemma_without_len(s.drop_last(), x);
        if s.contains(x) && s.last() != x {
            let i = choose|i: int| 0 <= i < s.len() && s[i] == x;
            assert(s.drop_last()[i] == x);
        }
    }
}

fn copy_ids(ids: &Vec<EntityId>) -> (copy: Vec<EntityId>)
    ensures
        copy@ == ids@,
{
    let mut copy: Vec<EntityId> = Vec::new();
    let mut k: usize = 0;
    while k < ids.len()
        invariant
            k <= ids.len(),
            copy@ == ids@.take(k as int),
        decreases ids.len() - k,
    {
        copy.push(ids[k]);
        k = k + 1;
        proof {
            assert(copy@ =~= ids@.take(k as int));
        }
    }
    proof {
        assert(ids@.take(ids.len() as int) =~= ids@);
    }
    copy
}

/// Two rosters with the same job, limit and workers.
pub open spec fn same_roster(a: WorkerRoster, b: WorkerRoster) -> bool {
    &&& a.job_id == b.job_id
    &&& a.max_workers == b.max_workers
    &&& a.worker_ids@ == b.worker_ids@
    &&& a.tentative_worker_ids@ == b.tentative_worker_ids@
}

impl WorkerRoster {
    /// An empty roster. A roster must take at least one worker; `requires`
    /// leaves out a limit of zero.
    pub fn new(job_id: &'static str, max_workers: usize) -> (roster: Self)
        requires
            max_workers > 0,
        ensures
            roster.job_id == job_id,
            roster.max_workers == max_workers,
            roster.worker_ids@.len() == 0,
            roster.tentative_worker_ids@.len() == 0,
    {
        WorkerRoster { job_id, max_workers, worker_ids: Vec::new(), tentative_worker_ids: Vec::new() }
    }

    pub fn copy(&self) -> (copy: Self)
        ensures
            same_roster(copy, *self),
    {
        WorkerRoster {
            job_id: self.job_id,
            max_workers: self.max_workers,
            worker_ids: copy_ids(&self.worker_ids),
            tentative_worker_ids: copy_ids(&self.tentative_worker_ids),
        }
    }

    pub fn has_capacity(&self) -> (capacity: bool)
        ensures
            capacity == has_capacity_spec(*self),
    {
        self.worker_ids.len() < self.max_workers && self.tentative_worker_ids.len() < self.max_workers
            - self.worker_ids.len()
    }

    /// A worker arrived: it is at work and no longer on its way.
    pub fn start_working(&mut self, worker_id: EntityId)
        ensures
            final(self).job_id == old(self).job_id,
            final(self).max_workers == old(self).max_workers,
            final(self).worker_ids@ == old(self).worker_ids@.push(worker_id),
            final(self).tentative_worker_ids@ == without(old(self).tentative_worker_ids@, worker_id),
    {
        let ghost t0 = self.tentative_worker_ids@;
        let mut kept: Vec<EntityId> = Vec::new();
        let mut k: usize = 0;
        while k < self.tentative_worker_ids.len()
            invariant
                self.tentative_worker_ids@ == t0,
                k <= t0.len(),
                kept@ == without(t0.take(k as int), worker_id),
            decreases t0.len() - k,
        {
            proof {
                assert(t0.take(k as int + 1).drop_last() =~= t0.take(k as int));
            }
            let id = self.tentative_worker_ids[k];
            if id != worker_id {
                kept.push(id);
            }
            k = k + 1;
        }
        proof {
            assert(t0.take(t0.len() as int) =~= t0);
        }
        self.tentative_worker_ids = kept;
        self.worker_ids.push(worker_id);
    }
}

/// The roster with `worker_id` on its way to it.
pub fn join_work_process(work_process: &WorkerRoster, worker_id: EntityId) -> (joined: WorkerRoster)
    ensures
        joined.job_id == work_process.job_id,
        joined.max_workers == work_process.max_workers,
        joined.worker_ids@ == work_process.worker_ids@,
        joined.tentative_worker_ids@ == work_process.tentative_worker_ids@.push(worker_id),
{
    let mut joined = work_process.copy();
    joined.tentative_worker_ids.push(worker_id);
    joined
}

/// Everyone on a roster: those at work, then those on their way.
pub fn workers_to_release(work_process: &WorkerRoster) -> (released: Vec<EntityId>)
    ensures
        released@ == work_process.worker_ids@ + work_process.tentative_worker_ids@,
{
    let mut released = copy_ids(&work_process.worker_ids);
    let mut k: usize = 0;
    while k < work_process.tentative_worker_ids.len()
        invariant
            k <= work_process.tentative_worker_ids@.len(),
            released@ == work_process.worker_ids@ + work_process.tentative_worker_ids@.take(k as int),
        decreases work_process.tentative_worker_ids@.len() - k,
    {
        released.push(work_process.tentative_worker_ids[k]);
        k = k + 1;
        proof {
            assert(released@ =~= work_process.worker_ids@ + work_process.tentative_worker_ids@.take(k as int));
        }
    }
    proof {
        assert(work_process.tentative_worker_ids@.take(work_process.tentative_worker_ids@.len() as int)
            =~= work_process.tentative_worker_ids@);
    }
    released
}

/// A roster that can take a worker for the job `job_id`.
pub open spec fn joinable(r: WorkerRoster, job_id: Seq<char>) -> bool {
    has_capacity_spec(r) && r.job_id@ == job_id
}

/// Index of the first roster at or after `start` that can take a worker for the job, or -1.
pub open spec fn first_joinable_from(s: Seq<WorkerRoster>, job_id: Seq<char>, start: int) -> int
    decreases s.len() - start,
{
    if start < 0 || start >= s.len() {
        -1
    } else if joinable(s[start], job_id) {
        start
    } else {
        first_joinable_from(s, job_id, start + 1)
    }
}

pub open spec fn first_joinable(s: Seq<WorkerRoster>, job_id: Seq<char>) -> int {
    first_joinable_from(s, job_id, 0)
}

proof fn lemma_first_joinable_from(s: Seq<WorkerRoster>, job_id: Seq<char>, start: int)
    requires
        0 <= start,
    ensures
        ({
            let i = first_joinable_from(s, job_id, start);
            i == -1 || (start <= i < s.len() && joinable(s[i], job_id))
        }),
    decreases s.len() - start,
{
    if start < s.len() && !joinable(s[start], job_id) {
        lemma_first_joinable_from(s, job_id, start + 1);
    }
}

/// Finds the first work process that can take a worker for the job.
pub fn find_joinable_work_process(work_processes: &Vec<WorkerRoster>, job_id: &str) -> (found: Option<usize>)
    ensures
        match found {
            Some(i) => i as int == first_joinable(work_processes@, job_id@),
            None => first_joinable(work_processes@, job_id@) == -1,
        },
        found matches Some(i) ==> {
            &&& i < work_processes@.len()
            &&& work_processes@[i as int].job_id@ == job_id@
            &&& work_processes@[i as int].worker_ids@.len() + work_processes@[i as int].tentative_worker_ids@.len()
                < work_processes@[i as int].max_workers
        },
{
    proof {
        lemma_first_joinable_order(work_processes@, job_id@, 0);
    }
    let mut j: usize = 0;
    while j < work_processes.len()
        invariant
            j <= work_processes@.len(),
            first_joinable(work_processes@, job_id@) == first_joinable_from(work_processes@, job_id@, j as int),
        decreases work_processes@.len() - j,
    {
        if work_processes[j].has_capacity() && str_eq(work_processes[j].job_id, job_id) {
            return Some(j);
        }
        j = j + 1;
    }
    None
}

#[derive(Clone, Copy, Debug, PartialEq, Eq, Structural)]
pub enum JoinOrCreateWorkProcessResultType {
    Joined,
    Created,
}

/// The roster a worker joined or created, and all rosters after it.
pub struct JoinOrCreateWorkProcessResult {
    pub kind: JoinOrCreateWorkProcessResultType,
    pub worker_id: EntityId,
    pub work_process: WorkerRoster,
    pub updated_work_processes: Vec<WorkerRoster>,
}

/// How many workers a newly created work process takes: two for harvesting, one otherwise.
pub open spec fn new_process_max_workers(job_name: Seq<char>) -> usize {
    if job_name == "Harvesting"@ { 2 } else { 1 }
}

/// A new work process for the job with the worker on its way to it; it
/// takes two workers when harvesting, one otherwise.
pub fn create_work_process(worker_id: EntityId, job: &Job) -> (work_process: WorkerRoster)
    ensures
        work_process.job_id == job.id,
        work_process.max_workers == new_process_max_workers(job.name@),
        work_process.worker_ids@.len() == 0,
        work_process.tentative_worker_ids@ == seq![worker_id],
{
    let max_workers: usize = if str_eq(job.name, "Harvesting") { 2 } else { 1 };
    let mut work_process = WorkerRoster::new(job.id, max_workers);
    work_process.tentative_worker_ids.push(worker_id);
    proof {
        assert(work_process.tentative_worker_ids@ =~= seq![worker_id]);
    }
    work_process
}

/// The worker joins the first work process of the job that has room, or
/// else a new one is created for it (with the worker on its way).
pub fn join_or_create_work_process(
    worker_id: EntityId,
    job: &Job,
    available_work_processess: &Vec<WorkerRoster>,
) -> (result: JoinOrCreateWorkProcessResult)
    ensures
        result.worker_id == worker_id,
        result.kind == JoinOrCreateWorkProcessResultType::Joined ==> result.work_process.job_id@ == job.id@,
        ({
            let old_ps = available_work_processess@;
            let i = first_joinable(old_ps, job.id@);
            let new_ps = result.updated_work_processes@;
            if i >= 0 {
                &&& result.kind == JoinOrCreateWorkProcessResultType::Joined
                &&& result.work_process.job_id == old_ps[i].job_id
                &&& result.work_process.max_workers == old_ps[i].max_workers
                &&& result.work_process.worker_ids@ == old_ps[i].worker_ids@
                &&& result.work_process.tentative_worker_ids@ == old_ps[i].tentative_worker_ids@.push(worker_id)
                &&& new_ps.len() == old_ps.len()
                &&& same_roster(new_ps[i], result.work_process)
                &&& forall|j: int| 0 <= j < old_ps.len() && j != i ==> same_roster(#[trigger] new_ps[j], old_ps[j])
            } else {
                &&& result.kind == JoinOrCreateWorkProcessResultType::Created
                &&& result.work_process.job_id == job.id
                &&& result.work_process.max_workers == new_process_max_workers(job.name@)
                &&& result.work_process.worker_ids@.len() == 0
                &&& result.work_process.tentative_worker_ids@ == seq![worker_id]
                &&& new_ps.len() == old_ps.len() + 1
                &&& same_roster(new_ps[old_ps.len() as int], result.work_process)
                &&& forall|j: int| 0 <= j < old_ps.len() ==> same_roster(#[trigger] new_ps[j], old_ps[j])
            }
        }),
{
    let ghost old_ps = available_work_processess@;
    proof {
        lemma_first_joinable_from(old_ps, job.id@, 0);
        lemma_first_joinable_order(old_ps, job.id@, 0);
    }
    match find_joinable_work_process(available_work_processess, job.id) {
        Some(index) => {
            let work_process = join_work_process(&available_work_processess[index], worker_id);
            let mut updated: Vec<WorkerRoster> = Vec::new();
            let mut k: usize = 0;
            while k < available_work_processess.len()
                invariant
                    available_work_processess@ == old_ps,
                    index < old_ps.len(),
                    k <= old_ps.len(),
                    updated@.len() == k,
                    forall|j: int| 0 <= j < k && j != index ==> same_roster(#[trigger] updated@[j], old_ps[j]),
                    index < k ==> same_roster(updated@[index as int], work_process),
                decreases old_ps.len() - k,
            {
                if k == index {
                    updated.push(work_process.copy());
                } else {
                    updated.push(available_work_processess[k].copy());
                }
                k = k + 1;
            }
            JoinOrCreateWorkProcessResult {
                kind: JoinOrCreateWorkProcessResultType::Joined,
                worker_id,
                work_process,
                updated_work_processes: updated,
            }
        },
        None => {
            let work_process = create_work_process(worker_id, job);
            let mut updated: Vec<WorkerRoster> = Vec::new();
            let mut k: usize = 0;
            while k < available_work_processess.len()
                invariant
                    available_work_processess@ == old_ps,
                    k <= old_ps.len(),
                    updated@.len() == k,
                    forall|j: int| 0 <= j < k ==> same_roster(#[trigger] updated@[j], old_ps[j]),
                decreases old_ps.len() - k,
            {
                updated.push(available_work_processess[k].copy());
                k = k + 1;
            }
            updated.push(work_process.copy());
            JoinOrCreateWorkProcessResult {
                kind: JoinOrCreateWorkProcessResultType::Created,
                worker_id,
                work_process,
                updated_work_processes: updated,
            }
        },
    }
}

/// A worker is only ever put on a work process of its own job that has room
/// for it: the roster found is the first one whose job id is the job's and
/// whose workers and tentative workers are fewer than its limit; every roster
/// before it lacks one of the two; and when none is found, no roster has both.
pub proof fn law_joined_process_is_of_the_job(work_processes: Seq<WorkerRoster>, job_id: Seq<char>)
    ensures
        ({
            let i = first_joinable(work_processes, job_id);
            &&& i >= 0 ==> {
                &&& i < work_processes.len()
                &&& work_processes[i].job_id@ == job_id
                &&& work_processes[i].worker_ids@.len() + work_processes[i].tentative_worker_ids@.len()
                    < work_processes[i].max_workers
            }
            &&& forall|j: int|
                0 <= j < work_processes.len() && (i < 0 || j < i) ==> !(#[trigger] work_processes[j].job_id@ == job_id
                    && work_processes[j].worker_ids@.len() + work_processes[j].tentative_worker_ids@.len()
                    < work_processes[j].max_workers)
        }),
{
    lemma_first_joinable_order(work_processes, job_id, 0);
}

proof fn lemma_first_joinable_order(s: Seq<WorkerRoster>, job_id: Seq<char>, start: int)
    requires
        0 <= start,
    ensures
        ({
            let i = first_joinable_from(s, job_id, start);
            &&& i == -1 || (start <= i < s.len() && s[i].job_id@ == job_id
                && s[i].worker_ids@.len() + s[i].tentative_worker_ids@.len() < s[i].max_workers)
            &&& forall|j: int|
                start <= j < s.len() && (i == -1 || j < i) ==> !(#[trigger] s[j].job_id@ == job_id
                    && s[j].worker_ids@.len() + s[j].tentative_worker_ids@.len() < s[j].max_workers)
        }),
    decreases s.len() - start,
{
    if start < s.len() && !joinable(s[start], job_id) {
        lemma_first_joinable_order(s, job_id, start + 1);
    }
}

/// A work process never takes more workers than its limit: the process a
/// worker joins had room for it, and a newly created one takes at least one.
pub proof fn law_join_or_create_within_capacity(
    work_processes: Seq<WorkerRoster>,
    job_id: Seq<char>,
    job_name: Seq<char>,
    worker_id: EntityId,
)
    ensures
        ({
            let i = first_joinable(work_processes, job_id);
            i >= 0 ==> work_processes[i].worker_ids@.len() + work_processes[i].tentative_worker_ids@.push(
                worker_id,
            ).len() <= work_processes[i].max_workers
        }),
        1 <= new_process_max_workers(job_name),
{
    lemma_first_joinable_from(work_processes, job_id, 0);
}

/// A worker on its way that arrives does not raise the head count of its
/// work process: it moves from the tentative workers to the workers.
pub proof fn law_arrival_keeps_capacity(roster: WorkerRoster, worker_id: EntityId)
    requires
        within_capacity(roster),
        roster.tentative_worker_ids@.contains(worker_id),
    ensures
        roster.worker_ids@.push(worker_id).len() + without(roster.tentative_worker_ids@, worker_id).len()
            <= roster.max_workers,
        !without(roster.tentative_worker_ids@, worker_id).contains(worker_id),
{
    lemma_without_len(roster.tentative_worker_ids@, worker_id);
    lemma_without_excludes(roster.tentative_worker_ids@, worker_id);
}

proof fn lemma_without_excludes(s: Seq<EntityId>, x: EntityId)
    ensures
        !without(s, x).contains(x),
    decreases s.len(),
{
    if s.len() > 0 {
        lemma_without_excludes(s.drop_last(), x);
        if s.last() != x {
            assert(without(s, x) == without(s.drop_last(), x).push(s.last()));
            assert forall|i: int| 0 <= i < without(s, x).len() implies without(s, x)[i] != x by {
                if i < without(s.drop_last(), x).len() {
                    assert(without(s, x)[i] == without(s.drop_last(), x)[i]);
                }
            }
        }
    }
}

} // verus!
