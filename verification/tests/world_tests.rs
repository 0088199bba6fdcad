use kingdom_sim::building::{construction_tick, ConstructedBy, ConstructionSiteWorkers, CraftingOutcome};
use kingdom_sim::carrier::advance_harvest;
use kingdom_sim::common::Countdown;
use kingdom_sim::entity::EntityId;
use kingdom_sim::items::{CarrierInventory, ItemBatch, ItemHandlingKind, ItemPrefab, ItemPrefabId, ItemPrefabTextures};
use kingdom_sim::jobs::{
    create_work_process, find_joinable_work_process, join_or_create_work_process, join_work_process,
    workers_to_release, Job, JoinOrCreateWorkProcessResultType, SkillType, WorkerRoster,
};
use kingdom_sim::planned_work::{MonkeyPlanner, BUILDING_JOB_NAME};
use kingdom_sim::plants::{
    maturity_based_resources, resources_to_drop, Germinator, GerminatorParams, IntrinsicPlantResourceGrower,
    PlantMaturityStage, PlantPrefabId, PlantResourceProducer, Range, TimerSettings,
};
use kingdom_sim::tasks::{
    arrange_next_task, construction_tasks, harvesting_tasks, planting_tasks, proceed_to_next_task,
    task_name, tooltip_title, tree_cutting_tasks, TaskAction, WorkerTask,
};

fn batch(id: u32, quantity: u32) -> ItemBatch {
    ItemBatch { prefab_id: ItemPrefabId(id), quantity }
}

#[test]
fn producer_fills_up_to_max() {
    let mut p = PlantResourceProducer::new(ItemPrefabId(2), 2, 10..20);
    assert_eq!(p.timer_settings, TimerSettings::RepeatedRandom(10, 20));
    p.produce();
    p.produce();
    p.produce();
    assert_eq!(p.current, batch(2, 2));
}

#[test]
fn grower_draws_maximum_and_maxes_out() {
    let mut g = IntrinsicPlantResourceGrower::new(ItemPrefabId(3), Range { from: 3, to: 4 });
    assert_eq!(g.max_quantity, 3);
    assert_eq!(g.item_batch, batch(3, 0));
    g.max_out();
    assert_eq!(g.item_batch, batch(3, 3));
    let wide = IntrinsicPlantResourceGrower::new(ItemPrefabId(3), Range { from: 2, to: 9 });
    assert!(wide.max_quantity >= 2 && wide.max_quantity < 9);
}

#[test]
fn germinator_from_params() {
    let g = Germinator::new(GerminatorParams { radius: 30, period_range: Range { from: 100, to: 200 } });
    assert_eq!(g.timer_settings, TimerSettings::RepeatedRandom(100, 200));
}

#[test]
fn fully_grown_plants_are_full() {
    let grower = IntrinsicPlantResourceGrower { item_batch: batch(3, 0), max_quantity: 4 };
    let producer = PlantResourceProducer::new(ItemPrefabId(2), 5, 1..2);
    let (g, p) = maturity_based_resources(PlantMaturityStage::FullyGrown, Some(grower), Some(producer));
    assert_eq!(g.unwrap().item_batch.quantity, 4);
    assert_eq!(p.unwrap().current.quantity, 5);
    let (g, p) = maturity_based_resources(PlantMaturityStage::Germ, Some(grower), None);
    assert_eq!(g, Some(grower));
    assert_eq!(p, None);
}

#[test]
fn destroyed_plant_drops() {
    assert_eq!(resources_to_drop(Some(batch(3, 2)), Some(batch(2, 1))), (vec![batch(3, 2), batch(2, 1)], true));
    assert_eq!(resources_to_drop(Some(batch(3, 0)), Some(batch(2, 1))), (vec![], false));
    assert_eq!(resources_to_drop(Some(batch(3, 2)), Some(batch(2, 0))), (vec![batch(3, 2)], false));
    assert_eq!(resources_to_drop(None, None), (vec![], true));
}

#[test]
fn harvesting_waits_for_countdown() {
    let prefab = ItemPrefab {
        id: ItemPrefabId(2),
        packable: true,
        handling_kind: ItemHandlingKind::SingleHanded,
        weight: 1,
        textures: ItemPrefabTextures { dropped: () },
    };
    let mut countdown = Countdown::new(1);
    let mut producer = PlantResourceProducer::new(ItemPrefabId(2), 5, 1..2);
    producer.current.quantity = 5;
    let mut inventory = CarrierInventory { items: vec![], max_weight: 3, available_weight: 3 };
    assert!(!advance_harvest(&mut countdown, &mut producer, &mut inventory, &prefab));
    assert!(inventory.items.is_empty());
    assert!(advance_harvest(&mut countdown, &mut producer, &mut inventory, &prefab));
    assert_eq!(inventory.items, vec![batch(2, 3)]);
    assert_eq!(producer.current.quantity, 2);
    assert_eq!(inventory.available_weight, 0);
}

#[test]
fn construction_site_workers_set() {
    let mut workers = ConstructionSiteWorkers::new();
    assert!(workers.is_empty());
    workers.insert(ConstructedBy(EntityId(1)));
    workers.insert(ConstructedBy(EntityId(1)));
    workers.insert(ConstructedBy(EntityId(2)));
    assert_eq!(workers.to_vec().len(), 2);
    assert!(workers.contains(ConstructedBy(EntityId(1))));
    workers.remove(ConstructedBy(EntityId(1)));
    assert!(!workers.contains(ConstructedBy(EntityId(1))));
    assert_eq!(workers.to_vec(), vec![EntityId(2)]);
    workers.remove(ConstructedBy(EntityId(2)));
    assert!(workers.is_empty());
}

#[test]
fn jobs_and_rosters() {
    let job = Job::new("Harvesting", SkillType::Harvesting);
    assert_eq!(job.id, "Harvesting");
    let created = create_work_process(EntityId(1), &job);
    assert_eq!(created.max_workers, 2);
    assert_eq!(created.tentative_worker_ids, vec![EntityId(1)]);
    let planting = Job::new("Planting", SkillType::PlantingCrops);
    assert_eq!(create_work_process(EntityId(1), &planting).max_workers, 1);

    let rosters = vec![created];
    let joined = join_or_create_work_process(EntityId(2), &job, &rosters);
    assert_eq!(joined.kind, JoinOrCreateWorkProcessResultType::Joined);
    assert_eq!(joined.work_process.tentative_worker_ids, vec![EntityId(1), EntityId(2)]);
    assert_eq!(joined.updated_work_processes.len(), 1);

    let full = joined.updated_work_processes;
    assert_eq!(find_joinable_work_process(&full, "Harvesting"), None);
    let third = join_or_create_work_process(EntityId(3), &job, &full);
    assert_eq!(third.kind, JoinOrCreateWorkProcessResultType::Created);
    assert_eq!(third.updated_work_processes.len(), 2);
    assert_eq!(third.updated_work_processes[1].tentative_worker_ids, vec![EntityId(3)]);
}

#[test]
fn arrivals_move_workers_to_work() {
    let mut roster = WorkerRoster::new(BUILDING_JOB_NAME, 2);
    roster = join_work_process(&roster, EntityId(1));
    roster = join_work_process(&roster, EntityId(2));
    assert!(!roster.has_capacity());
    roster.start_working(EntityId(2));
    assert_eq!(roster.worker_ids, vec![EntityId(2)]);
    assert_eq!(roster.tentative_worker_ids, vec![EntityId(1)]);
    assert!(!roster.has_capacity());
    assert_eq!(workers_to_release(&roster), vec![EntityId(2), EntityId(1)]);
}

#[test]
fn monkey_planner_recruits_up_to_max() {
    let idle = vec![EntityId(4), EntityId(5), EntityId(6)];
    let recruited = MonkeyPlanner.recruit_workers_to_build(EntityId(9), 2, &idle);
    assert_eq!(recruited.len(), 2);
    assert_eq!(recruited[1].0, EntityId(5));
    assert_eq!(recruited[1].1.work_id, EntityId(9));
    assert_eq!(recruited[1].1.job_id, "Building");
}

#[test]
fn task_queues() {
    let mut tasks = harvesting_tasks::<(i32, i32)>(EntityId(3), (1, 2));
    let (first, last) = proceed_to_next_task(&mut tasks);
    assert!(matches!(first, WorkerTask::MoveToTarget { target_id: EntityId(3) }));
    assert!(!last);
    assert!(matches!(arrange_next_task(first), TaskAction::MoveToEntity { destination_entity: EntityId(3) }));
    assert_eq!(tooltip_title(Some(&tasks.0[0])), "Task: Harvesting");
    assert_eq!(tooltip_title::<(i32, i32)>(None), "Idling");
    assert_eq!(tasks.0.len(), 3);
    let mut trees = tree_cutting_tasks::<()>(EntityId(8));
    proceed_to_next_task(&mut trees);
    let (cut, last) = proceed_to_next_task(&mut trees);
    assert!(last);
    assert!(matches!(arrange_next_task(cut), TaskAction::StartCuttingTree { target_id: EntityId(8) }));
    let plant = planting_tasks(PlantPrefabId(1), (5, 5));
    assert_eq!(plant.0.len(), 2);
    let build = construction_tasks::<()>(EntityId(1), EntityId(2));
    assert!(matches!(build.0[4], WorkerTask::Build { target_id: EntityId(2) }));
}

#[test]
fn construction_tick_stops_workers_when_done_or_short() {
    let mut workers = ConstructionSiteWorkers::new();
    workers.insert(ConstructedBy(EntityId(4)));
    workers.insert(ConstructedBy(EntityId(9)));
    let done = construction_tick(&workers, CraftingOutcome::Complete);
    let mut stopped = done.stopping.clone();
    stopped.sort_by_key(|e| e.0);
    assert_eq!(stopped, vec![EntityId(4), EntityId(9)]);
    assert!(done.becomes_building);
    assert!(!done.workers_released);
    let going = construction_tick(&workers, CraftingOutcome::Incomplete);
    assert!(going.stopping.is_empty());
    assert!(!going.becomes_building && !going.workers_released);
    let short = construction_tick(&workers, CraftingOutcome::InsufficientResources);
    assert_eq!(short.stopping.len(), 2);
    assert!(!short.becomes_building);
    assert!(short.workers_released);
}

#[test]
fn task_names_for_the_tooltip() {
    assert_eq!(task_name::<(i32, i32)>(&WorkerTask::CutTree { target_id: EntityId(1) }), "Cutting tree");
    assert_eq!(task_name::<(i32, i32)>(&WorkerTask::DropItems), "Dropping items");
    assert_eq!(task_name(&WorkerTask::MoveToPosition { position: (3, 4) }), "Moving to position");
    assert_eq!(task_name::<(i32, i32)>(&WorkerTask::Build { target_id: EntityId(2) }), "Building");
}

#[test]
fn roster_copy_keeps_everything() {
    let mut roster = WorkerRoster::new("Harvesting", 3);
    roster.tentative_worker_ids.push(EntityId(5));
    roster.worker_ids.push(EntityId(6));
    let copy = roster.copy();
    assert_eq!(copy.job_id, "Harvesting");
    assert_eq!(copy.max_workers, 3);
    assert_eq!(copy.worker_ids, vec![EntityId(6)]);
    assert_eq!(copy.tentative_worker_ids, vec![EntityId(5)]);
}
