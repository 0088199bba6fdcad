use crate::common::{countdown_tick, Countdown};
use crate::entity::EntityId;
use crate::items::{
    accept_fits, left_quantity, merge_batch, take_spec, CarrierInventory, ItemBatch, ItemPrefab,
};
use crate::plants::PlantResourceProducer;
use vstd::prelude::*;

verus! {

/// Marks a creature that is about to drop all it carries.
#[derive(Clone, Copy, Debug, PartialEq, Eq, Structural)]
pub struct CarrierDroppingItems;

/// A creature about to pick up the item batch `target_id`.
#[derive(Clone, Copy, Debug, PartialEq, Eq, Structural)]
pub struct CarrierCollectingItems {
    pub target_id: EntityId,
}

/// A creature about to hand its items to the construction site `target_id`.
#[derive(Clone, Copy, Debug, PartialEq, Eq, Structural)]
pub struct CarrierTransferringItems {
    pub target_id: EntityId,
}

/// The inventory after `accept`, as `CarrierInventory::accept` states it.
pub open spec fn accepted_inventory(inventory: CarrierInventory, prefab_id: crate::items::ItemPrefabId, weight: u32, batch: ItemBatch) -> (Seq<ItemBatch>, u32, u32) {
    let r = take_spec(batch, weight, inventory.available_weight);
    match r.picked {
        Some((picked, w)) => (merge_batch(inventory.items@, prefab_id, picked), (inventory.available_weight - w.0) as u32, left_quantity(r)),
        None => (inventory.items@, inventory.available_weight, batch.quantity),
    }
}

/// Everything the carrier holds is dropped: the batches are handed out and
/// the inventory is emptied. The free weight is left as it was.
pub fn drop_items(inventory: &mut CarrierInventory) -> (dropped: Vec<ItemBatch>)
    ensures
        dropped@ == old(inventory).items@,
        final(inventory).items@.len() == 0,
        final(inventory).max_weight == old(inventory).max_weight,
        final(inventory).available_weight == old(inventory).available_weight,
{
    let mut dropped: Vec<ItemBatch> = Vec::new();
    std::mem::swap(&mut dropped, &mut inventory.items);
    dropped
}

/// The carrier picks up from a batch lying on the ground; says whether the
/// batch is used up (and is then to be destroyed).
pub fn collect_items<T>(inventory: &mut CarrierInventory, item_prefab: &ItemPrefab<T>, item_batch: &mut ItemBatch) -> (used_up: bool)
    requires
        accept_fits(*old(inventory), item_prefab.id, item_prefab.weight, *old(item_batch)),
    ensures
        (final(inventory).items@, final(inventory).available_weight, final(item_batch).quantity)
            == accepted_inventory(*old(inventory), item_prefab.id, item_prefab.weight, *old(item_batch)),
        final(inventory).max_weight == old(inventory).max_weight,
        final(item_batch).prefab_id == old(item_batch).prefab_id,
        used_up == (final(item_batch).quantity == 0),
{
    inventory.accept(item_prefab, item_batch);
    item_batch.quantity == 0
}

/// A harvester picks up what a producer has (`produce` of the harvesting task).
pub fn produce<T>(resource_producer: &mut PlantResourceProducer, receiver_inventory: &mut CarrierInventory, item_prefab: &ItemPrefab<T>)
    requires
        accept_fits(*old(receiver_inventory), item_prefab.id, item_prefab.weight, old(resource_producer).current),
    ensures
        (final(receiver_inventory).items@, final(receiver_inventory).available_weight, final(resource_producer).current.quantity)
            == accepted_inventory(*old(receiver_inventory), item_prefab.id, item_prefab.weight, old(resource_producer).current),
        final(receiver_inventory).max_weight == old(receiver_inventory).max_weight,
        final(resource_producer).current.prefab_id == old(resource_producer).current.prefab_id,
        final(resource_producer).max_quantity == old(resource_producer).max_quantity,
        final(resource_producer).timer_settings == old(resource_producer).timer_settings,
{
    receiver_inventory.accept(item_prefab, &mut resource_producer.current);
}

/// One tick of harvesting: when the harvest countdown yields, the harvester
/// takes what the producer has and the harvest is over (`true`); otherwise
/// nothing but the countdown changes.
pub fn advance_harvest<T>(
    countdown: &mut Countdown,
    resource_producer: &mut PlantResourceProducer,
    receiver_inventory: &mut CarrierInventory,
    item_prefab: &ItemPrefab<T>,
) -> (finished: bool)
    requires
        old(countdown).current_value == 0 ==> accept_fits(
            *old(receiver_inventory),
            item_prefab.id,
            item_prefab.weight,
            old(resource_producer).current,
        ),
    ensures
        (*final(countdown), finished) == countdown_tick(*old(countdown)),
        finished ==> (final(receiver_inventory).items@, final(receiver_inventory).available_weight, final(resource_producer).current.quantity)
            == accepted_inventory(*old(receiver_inventory), item_prefab.id, item_prefab.weight, old(resource_producer).current),
        !finished ==> {
            &&& final(receiver_inventory).items@ == old(receiver_inventory).items@
            &&& final(receiver_inventory).available_weight == old(receiver_inventory).available_weight
            &&& *final(resource_producer) == *old(resource_producer)
        },
        final(receiver_inventory).max_weight == old(receiver_inventory).max_weight,
        final(resource_producer).current.prefab_id == old(resource_producer).current.prefab_id,
        final(resource_producer).max_quantity == old(resource_producer).max_quantity,
        final(resource_producer).timer_settings == old(resource_producer).timer_settings,
{
    if countdown.tick_yield() {
        produce(resource_producer, receiver_inventory, item_prefab);
        true
    } else {
        false
    }
}

} // verus!
