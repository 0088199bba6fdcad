use crate::entity::EntityId;
use crate::resources::{add_resource_chunk, max_units_spec, volume_of, ResourceChunk, ResourceChunkAddingResult};
use vstd::prelude::*;

verus! {

/// Marks a creature set to gather resources.
#[derive(Clone, Copy, Debug, PartialEq, Eq, Structural)]
pub struct TaskedWithGatheringResources;

/// The resource chunk a gatherer is heading for (and has claimed).
#[derive(Clone, Copy, Debug, PartialEq, Eq, Structural)]
pub struct LockedOnResourceChunk(pub EntityId);

/// Marks a gatherer on its way to the stockpile.
#[derive(Clone, Copy, Debug, PartialEq, Eq, Structural)]
pub struct BringingResourcesToStockpile;

/// What an idle gatherer does next.
#[derive(Clone, Copy, Debug, PartialEq, Eq, Structural)]
pub enum GatheringStep {
    /// Claim the chunk and move to it.
    LockOn(LockedOnResourceChunk),
    /// Bring what it carries to the stockpile.
    BringToStockpile(BringingResourcesToStockpile),
    /// Nothing to gather and nothing carried: wait.
    Wait,
}

/// A gatherer heads for an unclaimed chunk when there is one; otherwise it
/// brings what it carries to the stockpile, or waits when it carries nothing.
pub fn plan_gathering_step(
    _tasked: &TaskedWithGatheringResources,
    nearest_resource_chunk: Option<EntityId>,
    carrying_resources: bool,
) -> (step: GatheringStep)
    ensures
        step == match nearest_resource_chunk {
            Some(chunk) => GatheringStep::LockOn(LockedOnResourceChunk(chunk)),
            None => if carrying_resources {
                GatheringStep::BringToStockpile(BringingResourcesToStockpile)
            } else {
                GatheringStep::Wait
            },
        },
{
    match nearest_resource_chunk {
        Some(chunk) => GatheringStep::LockOn(LockedOnResourceChunk(chunk)),
        None => if carrying_resources {
            GatheringStep::BringToStockpile(BringingResourcesToStockpile)
        } else {
            GatheringStep::Wait
        },
    }
}

/// What becomes of the chunk a gatherer arrived at.
#[derive(Clone, Copy, Debug, PartialEq, Eq, Structural)]
pub enum ChunkFate {
    /// All of it was taken: it is despawned.
    Despawn,
    /// Part of it was taken: it is replaced by what remains.
    Replace(ResourceChunk),
    /// Nothing was taken.
    Keep,
}

/// The outcome of a gatherer's arrival at its chunk.
pub struct GatheringArrival {
    /// What the gatherer carries from now on, when that changed.
    pub carrying: Option<Vec<ResourceChunk>>,
    pub chunk_fate: ChunkFate,
    /// Whether the gatherer now heads for the stockpile.
    pub go_to_stockpile: Option<BringingResourcesToStockpile>,
}

/// A gatherer arrived at its chunk: it takes as much as fits. Having taken
/// everything it stays out gathering; having taken part of the chunk, or
/// nothing, it heads for the stockpile.
pub fn arrive_at_resource_chunk(
    carrying: &Vec<ResourceChunk>,
    resource_chunk: &ResourceChunk,
    max_volume: u32,
) -> (arrival: GatheringArrival)
    requires
        volume_of(carrying@) <= max_volume,
    ensures
        ({
            let units = max_units_spec(*resource_chunk, (max_volume - volume_of(carrying@)) as u32);
            if units == 0 {
                &&& arrival.carrying is None
                &&& arrival.chunk_fate == ChunkFate::Keep
                &&& arrival.go_to_stockpile is Some
            } else if units == resource_chunk.quantity {
                &&& arrival.carrying matches Some(c) && c@ == carrying@.push(*resource_chunk)
                &&& arrival.chunk_fate == ChunkFate::Despawn
                &&& arrival.go_to_stockpile is None
            } else {
                &&& arrival.carrying matches Some(c) && c@ == carrying@.push(
                    ResourceChunk { kind: resource_chunk.kind, quantity: units },
                )
                &&& arrival.chunk_fate == ChunkFate::Replace(
                    ResourceChunk { kind: resource_chunk.kind, quantity: (resource_chunk.quantity - units) as u32 },
                )
                &&& arrival.go_to_stockpile is Some
            }
        }),
{
    match add_resource_chunk(carrying, resource_chunk, max_volume) {
        ResourceChunkAddingResult::AddedAll(new_resource_chunks) => GatheringArrival {
            carrying: Some(new_resource_chunks),
            chunk_fate: ChunkFate::Despawn,
            go_to_stockpile: None,
        },
        ResourceChunkAddingResult::AddedPart(new_resource_chunks, remaining_resource_chunk) => GatheringArrival {
            carrying: Some(new_resource_chunks),
            chunk_fate: ChunkFate::Replace(remaining_resource_chunk),
            go_to_stockpile: Some(BringingResourcesToStockpile),
        },
        ResourceChunkAddingResult::AddedNone => GatheringArrival {
            carrying: None,
            chunk_fate: ChunkFate::Keep,
            go_to_stockpile: Some(BringingResourcesToStockpile),
        },
    }
}

} // verus!
