use crate::items::{ItemBatch, ItemPrefabId};
use rand::rngs::ThreadRng;
use rand::Rng;
use vstd::prelude::*;

verus! {

#[verifier::external_type_specification]
#[verifier::external_body]
pub struct ExThreadRng(ThreadRng);

/// The thread-local generator of rand (`rand::thread_rng`). Nothing is
/// claimed of the generator it returns.
#[verifier::external_body]
fn thread_rng() -> ThreadRng {
    rand::thread_rng()
}

/// A number drawn by `Rng::gen_range` of rand from `from..to`. The value is
/// random; what holds of every outcome is that it lies in the half-open range.
/// rand panics on an empty range, which `requires` leaves out.
#[verifier::external_body]
fn gen_range_u32(rng: &mut ThreadRng, from: u32, to: u32) -> (value: u32)
    requires
        from < to,
    ensures
        from <= value < to,
{
    rng.gen_range(from..to)
}

/// Identifier of a plant prefab.
#[derive(Clone, Copy, Debug, Hash, PartialEq, Eq, Structural)]
pub struct PlantPrefabId(pub u32);

/// A range of values, as written in prefab files.
#[derive(Clone, Copy, Debug, PartialEq, Eq, Structural)]
pub struct Range<T> {
    pub from: T,
    pub to: T,
}

/// How a timed component is rescheduled.
#[derive(Clone, Copy, Debug, PartialEq, Eq, Structural)]
pub enum TimerSettings {
    /// Every time after a random number of ticks from the range `start..end`.
    RepeatedRandom(u32, u32),
    /// Every time after the given number of ticks.
    RepeatedExact(u32),
}

/// How fast and how far a plant spreads seeds.
#[derive(Clone, Copy, Debug, PartialEq, Eq, Structural)]
pub struct GerminatorParams {
    pub radius: u32,
    pub period_range: Range<u32>,
}

/// A plant that spreads seeds.
#[derive(Clone, Copy, Debug, PartialEq, Eq, Structural)]
pub struct Germinator {
    pub timer_settings: TimerSettings,
}

impl Germinator {
    pub fn new(params: GerminatorParams) -> (germinator: Self)
        ensures
            germinator.timer_settings == TimerSettings::RepeatedRandom(params.period_range.from, params.period_range.to),
    {
        Germinator { timer_settings: TimerSettings::RepeatedRandom(params.period_range.from, params.period_range.to) }
    }
}

/// The resource a plant yields when destroyed.
#[derive(Clone, Copy, Debug, PartialEq, Eq, Structural)]
pub struct IntrinsicResourceParams {
    pub max_quantity_range: Range<u32>,
    pub item_prefab_id: ItemPrefabId,
}

/// The resource a plant keeps producing.
#[derive(Clone, Copy, Debug, PartialEq, Eq, Structural)]
pub struct ResourceProducerParams {
    pub max_quantity: u32,
    pub period_range: Range<u32>,
    pub item_prefab_id: ItemPrefabId,
}

#[derive(Clone, Copy, Debug, PartialEq, Eq, Structural)]
pub enum PlantMaturityStage {
    Germ,
    FullyGrown,
}

/// For resources that are produced and replenished without the plant being
/// destroyed (a bush producing berries).
#[derive(Clone, Copy, Debug, PartialEq, Eq, Structural)]
pub struct PlantResourceProducer {
    pub current: ItemBatch,
    pub max_quantity: u32,
    pub timer_settings: TimerSettings,
}

/// The quantity a producer holds after one production period.
pub open spec fn produced_quantity(p: PlantResourceProducer) -> u32 {
    if p.current.quantity < p.max_quantity {
        (p.current.quantity + 1) as u32
    } else {
        p.current.quantity
    }
}

impl PlantResourceProducer {
    pub fn new(item_prefab_id: ItemPrefabId, max_quantity: u32, period_range: std::ops::Range<u32>) -> (producer: Self)
        ensures
            producer.current == (ItemBatch { quantity: 0, prefab_id: item_prefab_id }),
            producer.max_quantity == max_quantity,
            producer.timer_settings == TimerSettings::RepeatedRandom(period_range.start, period_range.end),
    {
        PlantResourceProducer {
            current: ItemBatch { quantity: 0, prefab_id: item_prefab_id },
            max_quantity,
            timer_settings: TimerSettings::RepeatedRandom(period_range.start, period_range.end),
        }
    }

    /// One production period elapsed: one more item, unless the producer is full.
    pub fn produce(&mut self)
        ensures
            final(self).current.prefab_id == old(self).current.prefab_id,
            final(self).max_quantity == old(self).max_quantity,
            final(self).timer_settings == old(self).timer_settings,
            final(self).current.quantity == produced_quantity(*old(self)),
            old(self).current.quantity < old(self).max_quantity ==> final(self).current.quantity
                == old(self).current.quantity + 1,
            old(self).current.quantity >= old(self).max_quantity ==> final(self).current.quantity
                == old(self).current.quantity,
    {
        if self.current.quantity < self.max_quantity {
            self.current.quantity = self.current.quantity + 1;
        }
    }
}

/// A resource that grows within a plant and is released when it is destroyed.
#[derive(Clone, Copy, Debug, PartialEq, Eq, Structural)]
pub struct IntrinsicPlantResourceGrower {
    pub item_batch: ItemBatch,
    pub max_quantity: u32,
}

impl IntrinsicPlantResourceGrower {
    /// A grower holding nothing yet, whose maximum is drawn at random from
    /// the range (an empty range is refused, as rand panics on it).
    pub fn new(item_prefab_id: ItemPrefabId, intrinsic_resource_max_quantity_range: Range<u32>) -> (grower: Self)
        requires
            intrinsic_resource_max_quantity_range.from < intrinsic_resource_max_quantity_range.to,
        ensures
            grower.item_batch == (ItemBatch { prefab_id: item_prefab_id, quantity: 0 }),
            intrinsic_resource_max_quantity_range.from <= grower.max_quantity,
            grower.max_quantity < intrinsic_resource_max_quantity_range.to,
    {
        let mut rng = thread_rng();
        let max_quantity = gen_range_u32(
            &mut rng,
            intrinsic_resource_max_quantity_range.from,
            intrinsic_resource_max_quantity_range.to,
        );
        IntrinsicPlantResourceGrower { max_quantity, item_batch: ItemBatch { prefab_id: item_prefab_id, quantity: 0 } }
    }

    /// Fills the grower up to its maximum.
    pub fn max_out(&mut self)
        ensures
            final(self).item_batch.quantity == old(self).max_quantity,
            final(self).item_batch.prefab_id == old(self).item_batch.prefab_id,
            final(self).max_quantity == old(self).max_quantity,
    {
        self.item_batch.quantity = self.max_quantity;
    }
}

/// The resource components of a plant spawned at a maturity stage: a germ
/// keeps them as they are; a fully grown plant has its grower maxed out and
/// its producer full.
pub fn maturity_based_resources(
    maturity_state: PlantMaturityStage,
    maybe_grower: Option<IntrinsicPlantResourceGrower>,
    maybe_producer: Option<PlantResourceProducer>,
) -> (resources: (Option<IntrinsicPlantResourceGrower>, Option<PlantResourceProducer>))
    ensures
        maturity_state == PlantMaturityStage::Germ ==> resources == (maybe_grower, maybe_producer),
        maturity_state == PlantMaturityStage::FullyGrown ==> {
            &&& resources.0 == match maybe_grower {
                Some(g) => Some(IntrinsicPlantResourceGrower {
                    item_batch: ItemBatch { prefab_id: g.item_batch.prefab_id, quantity: g.max_quantity },
                    max_quantity: g.max_quantity,
                }),
                None => None,
            }
            &&& resources.1 == match maybe_producer {
                Some(p) => Some(PlantResourceProducer {
                    current: ItemBatch { prefab_id: p.current.prefab_id, quantity: p.max_quantity },
                    max_quantity: p.max_quantity,
                    timer_settings: p.timer_settings,
                }),
                None => None,
            }
        },
{
    match maturity_state {
        PlantMaturityStage::Germ => (maybe_grower, maybe_producer),
        PlantMaturityStage::FullyGrown => {
            let grower = match maybe_grower {
                Some(g) => {
                    let mut maxed_grower = g;
                    maxed_grower.max_out();
                    Some(maxed_grower)
                },
                None => None,
            };
            let producer = match maybe_producer {
                Some(p) => {
                    let mut maxed_producer = p;
                    maxed_producer.current.quantity = maxed_producer.max_quantity;
                    Some(maxed_producer)
                },
                None => None,
            };
            (grower, producer)
        },
    }
}

/// What a destroyed plant drops, and whether it is despawned. An empty
/// grower stops the processing of the plant before anything is dropped or
/// despawned; an empty producer stops it after the grower's batch.
pub open spec fn drop_plan(grower: Option<ItemBatch>, producer: Option<ItemBatch>) -> (Seq<ItemBatch>, bool) {
    match grower {
        Some(g) if g.quantity == 0 => (Seq::empty(), false),
        _ => {
            let from_grower = match grower {
                Some(g) => seq![g],
                None => Seq::empty(),
            };
            match producer {
                Some(p) if p.quantity == 0 => (from_grower, false),
                Some(p) => (from_grower.push(p), true),
                None => (from_grower, true),
            }
        },
    }
}

/// The item batches that a destroyed plant drops (from its grower and its
/// producer) and whether the plant is then despawned.
pub fn resources_to_drop(grower_batch: Option<ItemBatch>, producer_batch: Option<ItemBatch>) -> (plan: (Vec<ItemBatch>, bool))
    ensures
        (plan.0@, plan.1) == drop_plan(grower_batch, producer_batch),
{
    let mut dropped: Vec<ItemBatch> = Vec::new();
    match grower_batch {
        Some(item_batch) => {
            if item_batch.quantity == 0 {
                return (dropped, false);
            }
            dropped.push(item_batch);
        },
        None => {},
    }
    match producer_batch {
        Some(item_batch) => {
            if item_batch.quantity == 0 {
                return (dropped, false);
            }
            dropped.push(item_batch);
        },
        None => {},
    }
    proof {
        assert(dropped@ == drop_plan(grower_batch, producer_batch).0);
    }
    (dropped, true)
}

/// One production period adds exactly one item to a producer below its
/// maximum, and none to a producer at or above it.
pub proof fn law_produce_adds_one_item(producer: PlantResourceProducer)
    ensures
        producer.current.quantity < producer.max_quantity ==> produced_quantity(producer)
            == producer.current.quantity + 1,
        producer.current.quantity >= producer.max_quantity ==> produced_quantity(producer)
            == producer.current.quantity,
{
}

/// A producer never holds more than its maximum: producing keeps a producer
/// within its maximum, and a full producer stays full.
pub proof fn law_producer_within_max(producer: PlantResourceProducer)
    requires
        producer.current.quantity <= producer.max_quantity,
    ensures
        produced_quantity(producer) <= producer.max_quantity,
        produced_quantity(producer) >= producer.current.quantity,
        producer.current.quantity == producer.max_quantity ==> produced_quantity(producer) == producer.max_quantity,
{
}

} // verus!
