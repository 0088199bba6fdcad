use kingdom_sim::crafting_progress::{any_resource_unavailable, initial_resource_states, ConstructionResourceState};
use kingdom_sim::resource_gathering::{
    arrive_at_resource_chunk, plan_gathering_step, BringingResourcesToStockpile, ChunkFate, GatheringStep,
    LockedOnResourceChunk, TaskedWithGatheringResources,
};
use kingdom_sim::entity::EntityId;
use kingdom_sim::resources::{
    add_resource_chunk, max_resource_units_from_chunk, resource_volume_per_unit, ResourceChunk,
    ResourceChunkAddingResult, ResourceKind,
};

fn wood(quantity: u32) -> ResourceChunk {
    ResourceChunk { kind: ResourceKind::Wood, quantity }
}

#[test]
fn wood_takes_twenty_units_of_volume() {
    assert_eq!(resource_volume_per_unit(ResourceKind::Wood), 20);
    assert_eq!(max_resource_units_from_chunk(&wood(5), 70), 3);
    assert_eq!(max_resource_units_from_chunk(&wood(2), 70), 2);
}

#[test]
fn add_resource_chunk_all_part_none() {
    match add_resource_chunk(&vec![wood(1)], &wood(2), 100) {
        ResourceChunkAddingResult::AddedAll(chunks) => assert_eq!(chunks, vec![wood(1), wood(2)]),
        _ => panic!("expected all"),
    }
    match add_resource_chunk(&vec![wood(2)], &wood(5), 100) {
        ResourceChunkAddingResult::AddedPart(chunks, rest) => {
            assert_eq!(chunks, vec![wood(2), wood(3)]);
            assert_eq!(rest, wood(2));
            // never above the maximum volume: (2 + 3) * 20 == 100
            assert!(chunks.iter().map(|c| c.quantity * 20).sum::<u32>() <= 100);
        }
        _ => panic!("expected part"),
    }
    assert!(matches!(add_resource_chunk(&vec![wood(5)], &wood(1), 100), ResourceChunkAddingResult::AddedNone));
}

#[test]
fn construction_resource_state() {
    let state = ConstructionResourceState::new(ResourceKind::Wood, 4);
    assert_eq!(state.get_missing(), 4);
    state.add(4);
    let stocked = ConstructionResourceState { available: 3, ..state };
    assert_eq!(stocked.try_consume(1), Some(2));
    assert_eq!(stocked.try_consume(3), None);
    assert_eq!(stocked.get_missing(), 1);
    let states = initial_resource_states(&vec![(ResourceKind::Wood, 4)]);
    assert_eq!(states, vec![state]);
    assert!(any_resource_unavailable(&states));
    assert!(!any_resource_unavailable(&vec![stocked]));
}

#[test]
fn gathering_steps() {
    let tasked = TaskedWithGatheringResources;
    assert_eq!(
        plan_gathering_step(&tasked, Some(EntityId(7)), true),
        GatheringStep::LockOn(LockedOnResourceChunk(EntityId(7)))
    );
    assert_eq!(
        plan_gathering_step(&tasked, None, true),
        GatheringStep::BringToStockpile(BringingResourcesToStockpile)
    );
    assert_eq!(plan_gathering_step(&tasked, None, false), GatheringStep::Wait);
}

#[test]
fn gathering_arrivals() {
    let a = arrive_at_resource_chunk(&vec![], &wood(2), 100);
    assert_eq!(a.carrying, Some(vec![wood(2)]));
    assert_eq!(a.chunk_fate, ChunkFate::Despawn);
    assert!(a.go_to_stockpile.is_none());
    let b = arrive_at_resource_chunk(&vec![wood(3)], &wood(4), 100);
    assert_eq!(b.carrying, Some(vec![wood(3), wood(2)]));
    assert_eq!(b.chunk_fate, ChunkFate::Replace(wood(2)));
    assert!(b.go_to_stockpile.is_some());
    let c = arrive_at_resource_chunk(&vec![wood(5)], &wood(4), 100);
    assert!(c.carrying.is_none());
    assert_eq!(c.chunk_fate, ChunkFate::Keep);
    assert!(c.go_to_stockpile.is_some());
}
