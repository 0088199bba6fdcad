use kingdom_sim::carrier::{collect_items, drop_items};
use kingdom_sim::items::{
    add_batches_to, batches_fit, deliver_quantity, find_batch_index, CarrierInventory, ConstructionSiteStorage, ItemBatch,
    ItemHandlingKind, ItemPrefab, ItemPrefabId, ItemPrefabTextures,
};

fn batch(id: u32, quantity: u32) -> ItemBatch {
    ItemBatch { prefab_id: ItemPrefabId(id), quantity }
}

fn prefab(id: u32, weight: u32) -> ItemPrefab<&'static str> {
    ItemPrefab {
        id: ItemPrefabId(id),
        packable: true,
        handling_kind: ItemHandlingKind::SingleHanded,
        weight,
        textures: ItemPrefabTextures { dropped: "logs.png" },
    }
}

#[test]
fn take_picks_what_fits_and_leaves_the_rest() {
    let r = batch(3, 5).take(&prefab(3, 3), 10);
    let (picked, weight) = r.picked.unwrap();
    assert_eq!(picked, batch(3, 3));
    assert_eq!(weight.0, 9);
    assert_eq!(r.left, Some(batch(3, 2)));
}

#[test]
fn take_all_reports_weight_of_what_would_fit() {
    let r = batch(3, 2).take(&prefab(3, 3), 10);
    let (picked, weight) = r.picked.unwrap();
    assert_eq!(picked, batch(3, 2));
    assert_eq!(weight.0, 9);
    assert_eq!(r.left, None);
}

#[test]
fn take_nothing_when_nothing_fits() {
    let r = batch(3, 2).take(&prefab(3, 30), 10);
    assert!(r.picked.is_none());
    assert_eq!(r.left, Some(batch(3, 2)));
}

#[test]
fn take_weightless_items_takes_all() {
    let r = batch(1, 7).take(&prefab(1, 0), 1);
    let (picked, weight) = r.picked.unwrap();
    assert_eq!(picked, batch(1, 7));
    assert_eq!(weight.0, 0);
    let none = batch(1, 7).take(&prefab(1, 0), 0);
    assert!(none.picked.is_none());
}

#[test]
fn take_conserves_quantity() {
    for (quantity, weight, max) in [(5u32, 3u32, 10u32), (2, 3, 10), (9, 4, 17), (0, 1, 0)] {
        let r = batch(1, quantity).take(&prefab(1, weight), max);
        let picked = r.picked.map(|(b, _)| b.quantity).unwrap_or(0);
        let left = r.left.map(|b| b.quantity).unwrap_or(0);
        assert_eq!(picked + left, quantity);
    }
}

#[test]
fn deliver_quantity_splits_expected() {
    let r = deliver_quantity(5, 3);
    assert_eq!((r.delivered_used, r.expected_remains, r.delivered_unused), (3, 2, 2));
    let r = deliver_quantity(5, 8);
    assert_eq!((r.delivered_used, r.expected_remains, r.delivered_unused), (5, 0, 0));
}

#[test]
fn carrier_accept_merges_and_reduces_free_weight() {
    let mut inventory = CarrierInventory { items: vec![batch(3, 1)], max_weight: 50, available_weight: 20 };
    let mut lying = batch(3, 10);
    inventory.accept(&prefab(3, 3), &mut lying);
    assert_eq!(inventory.items, vec![batch(3, 7)]);
    assert_eq!(inventory.available_weight, 2);
    assert_eq!(lying.quantity, 4);
    // the items of prefab 3 held plus those lying are conserved: 1 + 10 == 7 + 4
    assert_eq!(inventory.items[0].quantity + lying.quantity, 11);
}

#[test]
fn carrier_accept_appends_new_prefab() {
    let mut inventory = CarrierInventory { items: vec![batch(1, 1)], max_weight: 50, available_weight: 50 };
    let mut lying = batch(2, 4);
    inventory.accept(&prefab(2, 10), &mut lying);
    assert_eq!(inventory.items, vec![batch(1, 1), batch(2, 4)]);
    assert_eq!(inventory.available_weight, 0);
    assert_eq!(lying.quantity, 0);
}

#[test]
fn collect_items_reports_used_up_batch() {
    let mut inventory = CarrierInventory { items: vec![], max_weight: 50, available_weight: 50 };
    let mut lying = batch(3, 5);
    assert!(collect_items(&mut inventory, &prefab(3, 5), &mut lying));
    let mut heavy = batch(4, 5);
    assert!(!collect_items(&mut inventory, &prefab(4, 100), &mut heavy));
    assert_eq!(heavy.quantity, 5);
}

#[test]
fn drop_items_empties_inventory() {
    let mut inventory = CarrierInventory { items: vec![batch(1, 2), batch(2, 3)], max_weight: 50, available_weight: 10 };
    let dropped = drop_items(&mut inventory);
    assert_eq!(dropped, vec![batch(1, 2), batch(2, 3)]);
    assert!(inventory.items.is_empty());
    assert_eq!(inventory.available_weight, 10);
}

#[test]
fn add_batches_to_merges_and_clears() {
    let mut consumer = vec![batch(1, 2), batch(2, 3)];
    let mut provider = vec![batch(2, 4), batch(5, 1), batch(5, 6)];
    add_batches_to(&mut consumer, &mut provider);
    assert_eq!(consumer, vec![batch(1, 2), batch(2, 7), batch(5, 7)]);
    assert!(provider.is_empty());
    let total: u32 = consumer.iter().map(|b| b.quantity).sum();
    assert_eq!(total, 2 + 3 + 4 + 1 + 6);
}

#[test]
fn storage_accept_covers_needs() {
    let mut storage = ConstructionSiteStorage::for_required_resources(&vec![(ItemPrefabId(3), 4), (ItemPrefabId(7), 2)]);
    assert_eq!(storage.needed_batches, vec![batch(3, 4), batch(7, 2)]);
    let mut offered = vec![batch(3, 6), batch(7, 1)];
    storage.accept(&mut offered);
    // prefab 3 is covered: its batch leaves the offer; prefab 7 falls short: need reduced, batch stays
    assert_eq!(storage.available_batches, vec![batch(3, 4), batch(7, 1)]);
    assert_eq!(storage.needed_batches, vec![batch(7, 1)]);
    assert_eq!(offered, vec![batch(7, 1)]);
}

#[test]
fn storage_accept_drops_needs_not_on_offer() {
    let mut storage = ConstructionSiteStorage { available_batches: vec![], needed_batches: vec![batch(9, 3)] };
    let mut offered = vec![batch(1, 5)];
    storage.accept(&mut offered);
    assert!(storage.needed_batches.is_empty());
    assert!(storage.available_batches.is_empty());
    assert_eq!(offered, vec![batch(1, 5)]);
}

#[test]
fn can_accept_refuses_an_overflowing_pick_up() {
    let full = CarrierInventory { items: vec![batch(3, u32::MAX - 1)], max_weight: 50, available_weight: 20 };
    assert!(!full.can_accept(&prefab(3, 3), &batch(3, 2)));
    assert!(full.can_accept(&prefab(3, 3), &batch(3, 1)));
    assert!(full.can_accept(&prefab(4, 3), &batch(4, 2)));
    assert!(full.can_accept(&prefab(3, 30), &batch(3, 2)));
}

#[test]
fn batches_fit_follows_the_merge() {
    assert!(batches_fit(&vec![batch(1, 5)], &vec![batch(1, 3), batch(2, u32::MAX)]));
    assert!(!batches_fit(&vec![batch(1, u32::MAX - 2)], &vec![batch(1, 2), batch(1, 1)]));
    assert!(!batches_fit(&vec![], &vec![batch(2, u32::MAX), batch(2, 1)]));
    assert!(batches_fit(&vec![], &vec![]));
}

#[test]
fn storage_never_receives_more_than_needed() {
    let needs = vec![batch(3, 4), batch(7, 2), batch(3, 1), batch(8, 5)];
    let mut storage = ConstructionSiteStorage { available_batches: vec![batch(3, 1)], needed_batches: needs.clone() };
    let mut offered = vec![batch(3, 9), batch(7, 1), batch(3, 1)];
    storage.accept(&mut offered);
    let total = |s: &Vec<ItemBatch>, id: u32| s.iter().filter(|b| b.prefab_id == ItemPrefabId(id)).map(|b| b.quantity).sum::<u32>();
    // prefab 3: four and one more delivered, nothing left to need
    assert_eq!(total(&storage.available_batches, 3) - 1 + total(&storage.needed_batches, 3), total(&needs, 3));
    // prefab 7: one delivered, one still needed
    assert_eq!(total(&storage.available_batches, 7) + total(&storage.needed_batches, 7), total(&needs, 7));
    // prefab 8 was not on offer: its need is dropped
    assert!(total(&storage.available_batches, 8) + total(&storage.needed_batches, 8) < total(&needs, 8));
}

#[test]
fn storage_exact_delivery_conserves_items() {
    let mut storage = ConstructionSiteStorage { available_batches: vec![batch(3, 1)], needed_batches: vec![batch(3, 4), batch(7, 2)] };
    let mut offered = vec![batch(3, 4), batch(7, 2), batch(1, 5)];
    storage.accept(&mut offered);
    assert_eq!(offered, vec![batch(1, 5)]);
    assert_eq!(storage.available_batches, vec![batch(3, 1), batch(3, 4), batch(7, 2)]);
    assert!(storage.needed_batches.is_empty());
    let total = |s: &Vec<ItemBatch>, id: u32| s.iter().filter(|b| b.prefab_id == ItemPrefabId(id)).map(|b| b.quantity).sum::<u32>();
    // before: prefab 1 five on offer; prefab 3 four on offer and one at the site; prefab 7 two on offer
    assert_eq!(total(&offered, 1) + total(&storage.available_batches, 1), 5);
    assert_eq!(total(&offered, 3) + total(&storage.available_batches, 3), 4 + 1);
    assert_eq!(total(&offered, 7) + total(&storage.available_batches, 7), 2);
}

#[test]
fn find_batch_index_finds_the_first_of_a_prefab() {
    let items = vec![batch(1, 2), batch(3, 4), batch(3, 1)];
    assert_eq!(find_batch_index(&items, ItemPrefabId(3)), Some(1));
    assert_eq!(find_batch_index(&items, ItemPrefabId(1)), Some(0));
    assert_eq!(find_batch_index(&items, ItemPrefabId(9)), None);
}
