use crate::carrier::{CarrierCollectingItems, CarrierDroppingItems, CarrierTransferringItems};
use crate::entity::EntityId;
use crate::plants::PlantPrefabId;
use std::collections::VecDeque;
use vstd::prelude::*;

verus! {

/// Planting a plant of a prefab at a position (`P` is the position type of
/// the game world).
#[derive(Clone, Copy, Debug)]
pub struct Planting<P> {
    pub plant_prefab_id: PlantPrefabId,
    pub position: P,
}

/// A task that a creature carries out (`P` is the position type).
#[derive(Clone, Copy, Debug)]
pub enum WorkerTask<P> {
    CutTree { target_id: EntityId },
    Plant { planting: Planting<P> },
    DropItems,
    Harvest { target_id: EntityId },
    MoveToTarget { target_id: EntityId },
    MoveToPosition { position: P },
    CollectItems { target_id: EntityId },
    TransferItems { target_id: EntityId },
    Build { target_id: EntityId },
}

/// The tasks a creature still has to carry out, first task first.
pub struct WorkerTasks<P>(pub VecDeque<WorkerTask<P>>);

/// Marks a creature that has no task at hand.
#[derive(Clone, Copy, Debug, PartialEq, Eq, Structural)]
pub struct IdlingWorker;

/// Takes the next task of an idle creature; also says whether that was its
/// last one. It is for creatures that have a task left (`requires`).
pub fn proceed_to_next_task<P>(tasks: &mut WorkerTasks<P>) -> (next: (WorkerTask<P>, bool))
    requires
        old(tasks).0@.len() > 0,
    ensures
        next.0 == old(tasks).0@[0],
        final(tasks).0@ == old(tasks).0@.drop_first(),
        next.1 == (final(tasks).0@.len() == 0),
{
    let task = tasks.0.pop_front().unwrap();
    let empty = tasks.0.len() == 0;
    (task, empty)
}

/// What starting a task does to the creature (`P` is the position type).
#[derive(Clone, Copy, Debug)]
pub enum TaskAction<P> {
    MoveToEntity { destination_entity: EntityId },
    MoveToPosition { position: P },
    StartCuttingTree { target_id: EntityId },
    StartHarvesting { target_id: EntityId },
    StartPlanting { planting: Planting<P> },
    ScheduleDroppingItems(CarrierDroppingItems),
    ScheduleCollectingItems(CarrierCollectingItems),
    ScheduleTransferringItems(CarrierTransferringItems),
    StartConstructing { construction_site_id: EntityId },
}

pub open spec fn task_action<P>(task: WorkerTask<P>) -> TaskAction<P> {
    match task {
        WorkerTask::MoveToTarget { target_id } => TaskAction::MoveToEntity { destination_entity: target_id },
        WorkerTask::MoveToPosition { position } => TaskAction::MoveToPosition { position },
        WorkerTask::CutTree { target_id } => TaskAction::StartCuttingTree { target_id },
        WorkerTask::Harvest { target_id } => TaskAction::StartHarvesting { target_id },
        WorkerTask::Plant { planting } => TaskAction::StartPlanting { planting },
        WorkerTask::DropItems => TaskAction::ScheduleDroppingItems(CarrierDroppingItems),
        WorkerTask::CollectItems { target_id } => TaskAction::ScheduleCollectingItems(CarrierCollectingItems { target_id }),
        WorkerTask::TransferItems { target_id } => TaskAction::ScheduleTransferringItems(CarrierTransferringItems { target_id }),
        WorkerTask::Build { target_id } => TaskAction::StartConstructing { construction_site_id: target_id },
    }
}

/// How a creature starts a task: moving tasks set it moving, the others
/// start the work or schedule the item handling of the task.
pub fn arrange_next_task<P>(next_task: WorkerTask<P>) -> (action: TaskAction<P>)
    ensures
        action == task_action(next_task),
        next_task is Harvest ==> action == (TaskAction::<P>::StartHarvesting {
            target_id: next_task->Harvest_target_id,
        }),
        next_task is CutTree ==> action == (TaskAction::<P>::StartCuttingTree {
            target_id: next_task->CutTree_target_id,
        }),
        next_task is MoveToTarget ==> action == (TaskAction::<P>::MoveToEntity {
            destination_entity: next_task->MoveToTarget_target_id,
        }),
        next_task is Build ==> action == (TaskAction::<P>::StartConstructing {
            construction_site_id: next_task->Build_target_id,
        }),
{
    match next_task {
        WorkerTask::MoveToTarget { target_id } => TaskAction::MoveToEntity { destination_entity: target_id },
        WorkerTask::MoveToPosition { position } => TaskAction::MoveToPosition { position },
        WorkerTask::CutTree { target_id } => TaskAction::StartCuttingTree { target_id },
        WorkerTask::Harvest { target_id } => TaskAction::StartHarvesting { target_id },
        WorkerTask::Plant { planting } => TaskAction::StartPlanting { planting },
        WorkerTask::DropItems => TaskAction::ScheduleDroppingItems(CarrierDroppingItems),
        WorkerTask::CollectItems { target_id } => TaskAction::ScheduleCollectingItems(CarrierCollectingItems { target_id }),
        WorkerTask::TransferItems { target_id } => TaskAction::ScheduleTransferringItems(CarrierTransferringItems { target_id }),
        WorkerTask::Build { target_id } => TaskAction::StartConstructing { construction_site_id: target_id },
    }
}

/// Each kind of task starts its own kind of action, on the same target:
/// moving tasks set the creature moving to the task's target or position,
/// cutting, harvesting, planting and building start that work on the task's
/// target, and the item tasks schedule dropping, collecting or handing over.
pub proof fn law_task_starts_its_own_action<P>(target_id: EntityId, position: P, planting: Planting<P>)
    ensures
        task_action((WorkerTask::<P>::MoveToTarget { target_id })) == (TaskAction::<P>::MoveToEntity {
            destination_entity: target_id,
        }),
        task_action((WorkerTask::<P>::MoveToPosition { position })) == (TaskAction::<P>::MoveToPosition { position }),
        task_action((WorkerTask::<P>::CutTree { target_id })) == (TaskAction::<P>::StartCuttingTree { target_id }),
        task_action((WorkerTask::<P>::Harvest { target_id })) == (TaskAction::<P>::StartHarvesting { target_id }),
        task_action((WorkerTask::<P>::Plant { planting })) == (TaskAction::<P>::StartPlanting { planting }),
        task_action(WorkerTask::<P>::DropItems) == TaskAction::<P>::ScheduleDroppingItems(CarrierDroppingItems),
        task_action((WorkerTask::<P>::CollectItems { target_id })) == TaskAction::<P>::ScheduleCollectingItems(
            (CarrierCollectingItems { target_id }),
        ),
        task_action((WorkerTask::<P>::TransferItems { target_id })) == TaskAction::<P>::ScheduleTransferringItems(
            (CarrierTransferringItems { target_id }),
        ),
        task_action((WorkerTask::<P>::Build { target_id })) == (TaskAction::<P>::StartConstructing {
            construction_site_id: target_id,
        }),
{
}

/// The name of a task as the tooltip shows it.
pub open spec fn task_name_spec<P>(task: WorkerTask<P>) -> Seq<char> {
    match task {
        WorkerTask::Plant { .. } => "Planting"@,
        WorkerTask::CutTree { .. } => "Cutting tree"@,
        WorkerTask::Harvest { .. } => "Harvesting"@,
        WorkerTask::MoveToTarget { .. } => "Moving to target"@,
        WorkerTask::MoveToPosition { .. } => "Moving to position"@,
        WorkerTask::DropItems => "Dropping items"@,
        WorkerTask::CollectItems { .. } => "Collecting items"@,
        WorkerTask::TransferItems { .. } => "Transferring items"@,
        WorkerTask::Build { .. } => "Building"@,
    }
}

pub fn task_name<P>(task: &WorkerTask<P>) -> (name: &'static str)
    ensures
        name@ == task_name_spec(*task),
{
    match task {
        WorkerTask::Plant { .. } => "Planting",
        WorkerTask::CutTree { .. } => "Cutting tree",
        WorkerTask::Harvest { .. } => "Harvesting",
        WorkerTask::MoveToTarget { .. } => "Moving to target",
        WorkerTask::MoveToPosition { .. } => "Moving to position",
        WorkerTask::DropItems => "Dropping items",
        WorkerTask::CollectItems { .. } => "Collecting items",
        WorkerTask::TransferItems { .. } => "Transferring items",
        WorkerTask::Build { .. } => "Building",
    }
}

/// The title of a creature's task tooltip: the task it started, or idling.
pub open spec fn tooltip_title_spec<P>(task: Option<WorkerTask<P>>) -> Seq<char> {
    match task {
        Some(t) => "Task: "@ + task_name_spec(t),
        None => "Idling"@,
    }
}

pub fn tooltip_title<P>(task: Option<&WorkerTask<P>>) -> (title: String)
    ensures
        title@ == tooltip_title_spec(match task {
            Some(t) => Some(*t),
            None => None,
        }),
{
    match task {
        Some(t) => {
            let mut title = String::from_str("Task: ");
            title.append(task_name(t));
            title
        },
        None => String::from_str("Idling"),
    }
}

fn tasks_from_two<P>(first: WorkerTask<P>, second: WorkerTask<P>) -> (tasks: WorkerTasks<P>)
    ensures
        tasks.0@ == seq![first, second],
{
    let mut queue: VecDeque<WorkerTask<P>> = VecDeque::new();
    queue.push_back(first);
    queue.push_back(second);
    proof {
        assert(queue@ =~= seq![first, second]);
    }
    WorkerTasks(queue)
}

/// Go to a tree and cut it.
pub fn tree_cutting_tasks<P>(tree_id: EntityId) -> (tasks: WorkerTasks<P>)
    ensures
        tasks.0@ == seq![
            WorkerTask::<P>::MoveToTarget { target_id: tree_id },
            WorkerTask::<P>::CutTree { target_id: tree_id },
        ],
{
    tasks_from_two(WorkerTask::MoveToTarget { target_id: tree_id }, WorkerTask::CutTree { target_id: tree_id })
}

/// Go to a bush, harvest it, carry the harvest to `drop_position` and drop it there.
pub fn harvesting_tasks<P>(bush_id: EntityId, drop_position: P) -> (tasks: WorkerTasks<P>)
    ensures
        tasks.0@ == seq![
            WorkerTask::<P>::MoveToTarget { target_id: bush_id },
            WorkerTask::<P>::Harvest { target_id: bush_id },
            WorkerTask::<P>::MoveToPosition { position: drop_position },
            WorkerTask::<P>::DropItems,
        ],
{
    let mut tasks = tasks_from_two(WorkerTask::MoveToTarget { target_id: bush_id }, WorkerTask::Harvest { target_id: bush_id });
    tasks.0.push_back(WorkerTask::MoveToPosition { position: drop_position });
    tasks.0.push_back(WorkerTask::DropItems);
    proof {
        assert(tasks.0@ =~= seq![
            WorkerTask::<P>::MoveToTarget { target_id: bush_id },
            WorkerTask::<P>::Harvest { target_id: bush_id },
            WorkerTask::<P>::MoveToPosition { position: drop_position },
            WorkerTask::<P>::DropItems,
        ]);
    }
    tasks
}

/// Go to a position and plant a plant of the prefab there.
pub fn planting_tasks<P: Copy>(plant_prefab_id: PlantPrefabId, position: P) -> (tasks: WorkerTasks<P>)
    ensures
        tasks.0@ == seq![
            WorkerTask::<P>::MoveToPosition { position },
            WorkerTask::<P>::Plant { planting: Planting { plant_prefab_id, position } },
        ],
{
    tasks_from_two(
        WorkerTask::MoveToPosition { position },
        WorkerTask::Plant { planting: Planting { plant_prefab_id, position } },
    )
}

/// Fetch an item batch, bring it to a construction site, hand it over and build.
pub fn construction_tasks<P>(item_batch_id: EntityId, construction_site_id: EntityId) -> (tasks: WorkerTasks<P>)
    ensures
        tasks.0@ == seq![
            WorkerTask::<P>::MoveToTarget { target_id: item_batch_id },
            WorkerTask::<P>::CollectItems { target_id: item_batch_id },
            WorkerTask::<P>::MoveToTarget { target_id: construction_site_id },
            WorkerTask::<P>::TransferItems { target_id: construction_site_id },
            WorkerTask::<P>::Build { target_id: construction_site_id },
        ],
{
    let mut tasks = tasks_from_two(
        WorkerTask::MoveToTarget { target_id: item_batch_id },
        WorkerTask::CollectItems { target_id: item_batch_id },
    );
    tasks.0.push_back(WorkerTask::MoveToTarget { target_id: construction_site_id });
    tasks.0.push_back(WorkerTask::TransferItems { target_id: construction_site_id });
    tasks.0.push_back(WorkerTask::Build { target_id: construction_site_id });
    proof {
        assert(tasks.0@ =~= seq![
            WorkerTask::<P>::MoveToTarget { target_id: item_batch_id },
            WorkerTask::<P>::CollectItems { target_id: item_batch_id },
            WorkerTask::<P>::MoveToTarget { target_id: construction_site_id },
            WorkerTask::<P>::TransferItems { target_id: construction_site_id },
            WorkerTask::<P>::Build { target_id: construction_site_id },
        ]);
    }
    tasks
}

} // verus!
