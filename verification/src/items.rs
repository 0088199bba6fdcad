use vstd::prelude::*;

verus! {

/// Identifier of an item prefab (kind of item).
#[derive(Clone, Copy, Debug, Hash, PartialEq, Eq, Structural)]
pub struct ItemPrefabId(pub u32);

/// A number of items of one prefab lying together.
#[derive(Clone, Copy, Debug, PartialEq, Eq, Structural)]
pub struct ItemBatch {
    pub prefab_id: ItemPrefabId,
    pub quantity: u32,
}

/// A weight in weight units.
#[derive(Clone, Copy, Debug, PartialEq, Eq, Structural)]
pub struct Weight(pub u32);

/// What taking from a batch picked up (with its weight) and what was left.
#[derive(Clone, Copy, Debug)]
pub struct ItemTakingResult {
    pub picked: Option<(ItemBatch, Weight)>,
    pub left: Option<ItemBatch>,
}

#[derive(Clone, Copy, Debug, PartialEq, Eq, Structural)]
pub enum ItemHandlingKind {
    TwoHanded,
    SingleHanded,
}

/// Textures of an item prefab; `T` is the texture handle type of the renderer.
#[derive(Clone, Debug)]
pub struct ItemPrefabTextures<T> {
    pub dropped: T,
}

/// An item prefab; `T` is the texture handle type of the renderer.
#[derive(Clone, Debug)]
pub struct ItemPrefab<T> {
    pub id: ItemPrefabId,
    pub packable: bool,
    pub handling_kind: ItemHandlingKind,
    pub weight: u32,
    pub textures: ItemPrefabTextures<T>,
}

/// Items that a carrier holds, with its weight limit and the weight still free.
#[derive(Clone, Debug)]
pub struct CarrierInventory {
    pub items: Vec<ItemBatch>,
    pub max_weight: u32,
    pub available_weight: u32,
}

pub enum CarrierHands {
    Separate { left: ItemBatch, right: ItemBatch },
    Combined(ItemBatch),
}

/// Items delivered to a construction site, and the items it still needs.
#[derive(Clone, Debug)]
pub struct ConstructionSiteStorage {
    pub available_batches: Vec<ItemBatch>,
    pub needed_batches: Vec<ItemBatch>,
}

/// The outcome of delivering a quantity against an expected quantity.
#[derive(Clone, Copy, Debug, PartialEq, Eq, Structural)]
pub struct TransferResult {
    pub expected_remains: u32,
    pub delivered_unused: u32,
    pub delivered_used: u32,
}

// ---------------------------------------------------------------------------
// Looking batches up by prefab
// ---------------------------------------------------------------------------

/// Index of the first batch of `id` in `s` at or after `start`, or -1.
pub open spec fn first_batch_index_from(s: Seq<ItemBatch>, id: ItemPrefabId, start: int) -> int
    decreases s.len() - start,
{
    if start < 0 || start >= s.len() {
        -1
    } else if s[start].prefab_id == id {
        start
    } else {
        first_batch_index_from(s, id, start + 1)
    }
}

/// Index of the first batch of `id` in `s`, or -1 when there is none.
pub open spec fn first_batch_index(s: Seq<ItemBatch>, id: ItemPrefabId) -> int {
    first_batch_index_from(s, id, 0)
}

pub proof fn lemma_first_batch_index_from(s: Seq<ItemBatch>, id: ItemPrefabId, start: int)
    requires
        0 <= start,
    ensures
        ({
            let i = first_batch_index_from(s, id, start);
            &&& i == -1 || (start <= i < s.len() && s[i].prefab_id == id)
            &&& forall|j: int| start <= j < s.len() && (i == -1 || j < i) ==> s[j].prefab_id != id
        }),
    decreases s.len() - start,
{
    if start < s.len() && s[start].prefab_id != id {
        lemma_first_batch_index_from(s, id, start + 1);
    }
}

pub proof fn lemma_first_batch_index(s: Seq<ItemBatch>, id: ItemPrefabId)
    ensures
        ({
            let i = first_batch_index(s, id);
            &&& i == -1 || (0 <= i < s.len() && s[i].prefab_id == id)
            &&& forall|j: int| 0 <= j < s.len() && (i == -1 || j < i) ==> s[j].prefab_id != id
        }),
{
    lemma_first_batch_index_from(s, id, 0);
}

/// Finds the first batch of the prefab `id`.
pub fn find_batch_index(items: &Vec<ItemBatch>, id: ItemPrefabId) -> (found: Option<usize>)
    ensures
        match found {
            Some(i) => i as int == first_batch_index(items@, id),
            None => first_batch_index(items@, id) == -1,
        },
{
    let mut j: usize = 0;
    while j < items.len()
        invariant
            j <= items.len(),
            first_batch_index(items@, id) == first_batch_index_from(items@, id, j as int),
        decreases items.len() - j,
    {
        if items[j].prefab_id == id {
            return Some(j);
        }
        j = j + 1;
    }
    None
}

// ---------------------------------------------------------------------------
// Delivering to a construction site
// ---------------------------------------------------------------------------

pub open spec fn min_u32(a: u32, b: u32) -> u32 {
    if a <= b { a } else { b }
}

pub open spec fn deliver_spec(expected: u32, delivered: u32) -> TransferResult {
    TransferResult {
        delivered_used: min_u32(delivered, expected),
        expected_remains: if delivered >= expected { 0 } else { (expected - delivered) as u32 },
        delivered_unused: (expected - min_u32(delivered, expected)) as u32,
    }
}

/// Splits a delivered quantity against an expected one. `delivered_unused`
/// is computed as the expected quantity minus the used part, so it always
/// equals `expected_remains`.
pub fn deliver_quantity(expected: u32, delivered: u32) -> (result: TransferResult)
    ensures
        result == deliver_spec(expected, delivered),
        result.delivered_used + result.expected_remains == expected,
        result.delivered_unused == result.expected_remains,
{
    let delivered_used = if delivered <= expected { delivered } else { expected };
    TransferResult {
        delivered_used,
        expected_remains: expected.saturating_sub(delivered),
        delivered_unused: expected - delivered_used,
    }
}

/// One step of `ConstructionSiteStorage::accept`, on (kept needs, offered batches, available).
pub open spec fn accept_step(
    st: (Seq<ItemBatch>, Seq<ItemBatch>, Seq<ItemBatch>),
    needed: ItemBatch,
) -> (Seq<ItemBatch>, Seq<ItemBatch>, Seq<ItemBatch>) {
    let i = first_batch_index(st.1, needed.prefab_id);
    if i < 0 {
        st
    } else {
        let r = deliver_spec(needed.quantity, st.1[i].quantity);
        let available = st.2.push(ItemBatch { prefab_id: st.1[i].prefab_id, quantity: r.delivered_used });
        let items = if r.delivered_unused == 0 { st.1.remove(i) } else { st.1 };
        let kept = if r.expected_remains == 0 {
            st.0
        } else {
            st.0.push(ItemBatch { prefab_id: needed.prefab_id, quantity: r.expected_remains })
        };
        (kept, items, available)
    }
}

/// `ConstructionSiteStorage::accept` over the needs `needed`, in order.
pub open spec fn accept_all(
    needed: Seq<ItemBatch>,
    items: Seq<ItemBatch>,
    available: Seq<ItemBatch>,
) -> (Seq<ItemBatch>, Seq<ItemBatch>, Seq<ItemBatch>)
    decreases needed.len(),
{
    if needed.len() == 0 {
        (Seq::empty(), items, available)
    } else {
        accept_step(accept_all(needed.drop_last(), items, available), needed.last())
    }
}

impl ConstructionSiteStorage {
    /// The storage of a new construction site: nothing delivered yet, and a
    /// needed batch for every required resource, in order.
    pub fn for_required_resources(required_resources: &Vec<(ItemPrefabId, u32)>) -> (storage: Self)
        ensures
            storage.available_batches@.len() == 0,
            storage.needed_batches@.len() == required_resources@.len(),
            forall|i: int|
                0 <= i < required_resources@.len() ==> #[trigger] storage.needed_batches@[i] == (ItemBatch {
                    prefab_id: required_resources@[i].0,
                    quantity: required_resources@[i].1,
                }),
    {
        let mut needed_batches: Vec<ItemBatch> = Vec::new();
        let mut k: usize = 0;
        while k < required_resources.len()
            invariant
                k <= required_resources@.len(),
                needed_batches@.len() == k,
                forall|i: int|
                    0 <= i < k ==> #[trigger] needed_batches@[i] == (ItemBatch {
                        prefab_id: required_resources@[i].0,
                        quantity: required_resources@[i].1,
                    }),
            decreases required_resources@.len() - k,
        {
            let (prefab_id, quantity) = required_resources[k];
            needed_batches.push(ItemBatch { prefab_id, quantity });
            k = k + 1;
        }
        ConstructionSiteStorage { available_batches: Vec::new(), needed_batches }
    }

    /// Takes the offered batches against the needed ones, in the order of the
    /// needs. For each need, the first offered batch of its prefab is used:
    /// the used part is added to the available batches; a batch that covers
    /// the need is removed from the offer and the need is dropped; a batch
    /// that falls short stays in the offer as it was and the need is reduced
    /// by its quantity. A need with no batch of its prefab on offer is dropped.
    pub fn accept(&mut self, item_batches: &mut Vec<ItemBatch>)
        ensures
            (final(self).needed_batches@, final(item_batches)@, final(self).available_batches@)
                == accept_all(old(self).needed_batches@, old(item_batches)@, old(self).available_batches@),
    {
        let ghost needed0 = self.needed_batches@;
        let ghost items0 = item_batches@;
        let ghost available0 = self.available_batches@;
        let mut kept: Vec<ItemBatch> = Vec::new();
        let mut k: usize = 0;
        while k < self.needed_batches.len()
            invariant
                self.needed_batches@ == needed0,
                k <= needed0.len(),
                (kept@, item_batches@, self.available_batches@)
                    == accept_all(needed0.take(k as int), items0, available0),
            decreases needed0.len() - k,
        {
            let needed = self.needed_batches[k];
            proof {
                assert(needed0.take(k as int + 1).drop_last() =~= needed0.take(k as int));
                assert(needed0.take(k as int + 1).last() == needed);
            }
            let found_index = find_batch_index(item_batches, needed.prefab_id);
            match found_index {
                Some(index) => {
                    proof {
                        lemma_first_batch_index(item_batches@, needed.prefab_id);
                    }
                    let item_batch = item_batches[index];
                    let result = deliver_quantity(needed.quantity, item_batch.quantity);
                    self.available_batches.push(
                        ItemBatch { prefab_id: item_batch.prefab_id, quantity: result.delivered_used },
                    );
                    if result.delivered_unused == 0 {
                        item_batches.remove(index);
                    }
                    if result.expected_remains != 0 {
                        kept.push(ItemBatch { prefab_id: needed.prefab_id, quantity: result.expected_remains });
                    }
                },
                None => {},
            }
            k = k + 1;
        }
        proof {
            assert(needed0.take(needed0.len() as int) =~= needed0);
        }
        self.needed_batches = kept;
    }
}

// ---------------------------------------------------------------------------
// Taking items up to a weight limit
// ---------------------------------------------------------------------------

/// How many items of weight `weight` fit into `max_weight`: the floor of the
/// quotient; a weightless item fits without bound unless no weight is free.
pub open spec fn picked_quantity_spec(weight: u32, max_weight: u32) -> u32 {
    if weight == 0 {
        if max_weight == 0 { 0 } else { u32::MAX }
    } else {
        (max_weight / weight) as u32
    }
}

pub open spec fn take_spec(batch: ItemBatch, weight: u32, max_weight: u32) -> ItemTakingResult {
    let picked_quantity = picked_quantity_spec(weight, max_weight);
    if picked_quantity >= batch.quantity {
        ItemTakingResult {
            picked: Some((
                ItemBatch { quantity: batch.quantity, prefab_id: batch.prefab_id },
                Weight((weight * picked_quantity) as u32),
            )),
            left: None,
        }
    } else if picked_quantity == 0 {
        ItemTakingResult { picked: None, left: Some(batch) }
    } else {
        ItemTakingResult {
            picked: Some((
                ItemBatch { quantity: picked_quantity, prefab_id: batch.prefab_id },
                Weight((weight * picked_quantity) as u32),
            )),
            left: Some(ItemBatch { quantity: (batch.quantity - picked_quantity) as u32, prefab_id: batch.prefab_id }),
        }
    }
}

proof fn lemma_picked_weight_fits(weight: u32, max_weight: u32)
    ensures
        weight * picked_quantity_spec(weight, max_weight) <= max_weight,
{
    if weight > 0 {
        let q = max_weight / weight;
        assert(weight * (max_weight / weight) <= max_weight) by (nonlinear_arith)
            requires
                weight > 0,
        ;
    }
}

impl ItemBatch {
    /// Takes as many items of this batch as fit into `max_weight`.
    /// The weight reported for the picked items is the weight of as many
    /// items as would fit, even when the batch holds fewer.
    pub fn take<T>(&self, item_prefab: &ItemPrefab<T>, max_weight: u32) -> (result: ItemTakingResult)
        ensures
            result == take_spec(*self, item_prefab.weight, max_weight),
    {
        let picked_quantity: u32 = if item_prefab.weight == 0 {
            if max_weight == 0 { 0 } else { u32::MAX }
        } else {
            max_weight / item_prefab.weight
        };
        proof {
            lemma_picked_weight_fits(item_prefab.weight, max_weight);
        }
        if picked_quantity >= self.quantity {
            ItemTakingResult {
                picked: Some((
                    ItemBatch { quantity: self.quantity, prefab_id: self.prefab_id },
                    Weight(item_prefab.weight * picked_quantity),
                )),
                left: None,
            }
        } else if picked_quantity == 0 {
            ItemTakingResult { picked: None, left: Some(*self) }
        } else {
            ItemTakingResult {
                picked: Some((
                    ItemBatch { quantity: picked_quantity, prefab_id: self.prefab_id },
                    Weight(item_prefab.weight * picked_quantity),
                )),
                left: Some(ItemBatch { quantity: self.quantity - picked_quantity, prefab_id: self.prefab_id }),
            }
        }
    }
}

/// The quantity that a taking result leaves in the batch (none left counts as zero).
pub open spec fn left_quantity(r: ItemTakingResult) -> u32 {
    match r.left {
        Some(l) => l.quantity,
        None => 0,
    }
}

/// The quantity that a taking result picked (nothing picked counts as zero).
pub open spec fn picked_quantity_of(r: ItemTakingResult) -> u32 {
    match r.picked {
        Some((b, _)) => b.quantity,
        None => 0,
    }
}

/// Adds `quantity` to the first batch of `id`, or appends a batch of it.
pub open spec fn merge_batch(items: Seq<ItemBatch>, id: ItemPrefabId, batch: ItemBatch) -> Seq<ItemBatch> {
    let i = first_batch_index(items, id);
    if i >= 0 {
        items.update(i, ItemBatch { prefab_id: items[i].prefab_id, quantity: (items[i].quantity + batch.quantity) as u32 })
    } else {
        items.push(batch)
    }
}

/// Adding `batch` to the first batch of `id` in `items` does not overflow.
pub open spec fn merge_batch_fits(items: Seq<ItemBatch>, id: ItemPrefabId, batch: ItemBatch) -> bool {
    let i = first_batch_index(items, id);
    i >= 0 ==> items[i].quantity + batch.quantity <= u32::MAX
}

/// What `CarrierInventory::accept` needs: the picked items fit in a `u32`
/// when added to the batch of the prefab already held.
pub open spec fn accept_fits(inventory: CarrierInventory, prefab_id: ItemPrefabId, weight: u32, batch: ItemBatch) -> bool {
    match take_spec(batch, weight, inventory.available_weight).picked {
        Some((picked, _)) => merge_batch_fits(inventory.items@, prefab_id, picked),
        None => true,
    }
}

impl CarrierInventory {
    /// Whether picking up from `item_batch` keeps the held quantity of the
    /// prefab within a `u32`, which `accept` asks of its caller.
    pub fn can_accept<T>(&self, item_prefab: &ItemPrefab<T>, item_batch: &ItemBatch) -> (fits: bool)
        ensures
            fits == accept_fits(*self, item_prefab.id, item_prefab.weight, *item_batch),
    {
        let result = item_batch.take(item_prefab, self.available_weight);
        proof {
            lemma_first_batch_index(self.items@, item_prefab.id);
        }
        match result.picked {
            Some((picked, _)) => match find_batch_index(&self.items, item_prefab.id) {
                Some(i) => self.items[i].quantity <= u32::MAX - picked.quantity,
                None => true,
            },
            None => true,
        }
    }

    /// Picks up from `item_batch` as much as the free weight allows. The
    /// picked items join the first held batch of the prefab's id (or are
    /// appended), the free weight drops by the picked weight, and the batch
    /// keeps what was left.
    pub fn accept<T>(&mut self, item_prefab: &ItemPrefab<T>, item_batch: &mut ItemBatch)
        requires
            accept_fits(*old(self), item_prefab.id, item_prefab.weight, *old(item_batch)),
        ensures
            ({
                let r = take_spec(*old(item_batch), item_prefab.weight, old(self).available_weight);
                &&& final(self).max_weight == old(self).max_weight
                &&& final(item_batch).prefab_id == old(item_batch).prefab_id
                &&& match r.picked {
                    Some((picked, w)) => {
                        &&& final(self).items@ == merge_batch(old(self).items@, item_prefab.id, picked)
                        &&& final(self).available_weight == old(self).available_weight - w.0
                        &&& final(item_batch).quantity == left_quantity(r)
                    },
                    None => {
                        &&& final(self).items@ == old(self).items@
                        &&& final(self).available_weight == old(self).available_weight
                        &&& final(item_batch).quantity == old(item_batch).quantity
                    },
                }
            }),
    {
        let result = item_batch.take(item_prefab, self.available_weight);
        proof {
            lemma_picked_weight_fits(item_prefab.weight, old(self).available_weight);
            lemma_first_batch_index(self.items@, item_prefab.id);
        }
        let maybe_existing = find_batch_index(&self.items, item_prefab.id);
        match result.picked {
            Some((picked_item_batch, Weight(item_batch_weight))) => {
                match maybe_existing {
                    Some(i) => {
                        let existing = self.items[i];
                        self.items.set(
                            i,
                            ItemBatch {
                                prefab_id: existing.prefab_id,
                                quantity: existing.quantity + picked_item_batch.quantity,
                            },
                        );
                    },
                    None => {
                        self.items.push(picked_item_batch);
                    },
                }
                self.available_weight = self.available_weight - item_batch_weight;
                item_batch.quantity = match result.left {
                    Some(left) => left.quantity,
                    None => 0,
                };
            },
            None => {},
        }
    }
}

// ---------------------------------------------------------------------------
// Merging batch lists
// ---------------------------------------------------------------------------

/// `add_batches_to`: the provider's batches merged into the consumer's, in order.
pub open spec fn add_batches(consumer: Seq<ItemBatch>, provider: Seq<ItemBatch>) -> Seq<ItemBatch>
    decreases provider.len(),
{
    if provider.len() == 0 {
        consumer
    } else {
        let b = provider.last();
        merge_batch(add_batches(consumer, provider.drop_last()), b.prefab_id, b)
    }
}

/// No quantity overflows while merging `provider` into `consumer`.
pub open spec fn add_batches_fit(consumer: Seq<ItemBatch>, provider: Seq<ItemBatch>) -> bool
    decreases provider.len(),
{
    if provider.len() == 0 {
        true
    } else {
        let b = provider.last();
        add_batches_fit(consumer, provider.drop_last())
            && merge_batch_fits(add_batches(consumer, provider.drop_last()), b.prefab_id, b)
    }
}

/// Moves every batch of `provider` into `consumer`: a batch joins the first
/// consumer batch of its prefab, or is appended; `provider` ends up empty.
pub fn add_batches_to(consumer: &mut Vec<ItemBatch>, provider: &mut Vec<ItemBatch>)
    requires
        add_batches_fit(old(consumer)@, old(provider)@),
    ensures
        final(consumer)@ == add_batches(old(consumer)@, old(provider)@),
        final(provider)@.len() == 0,
{
    let ghost consumer0 = consumer@;
    let ghost provider0 = provider@;
    let mut k: usize = 0;
    while k < provider.len()
        invariant
            provider@ == provider0,
            k <= provider0.len(),
            consumer@ == add_batches(consumer0, provider0.take(k as int)),
            add_batches_fit(consumer0, provider0),
        decreases provider0.len() - k,
    {
        let incoming = provider[k];
        proof {
            assert(provider0.take(k as int + 1).drop_last() =~= provider0.take(k as int));
            assert(provider0.take(k as int + 1).last() == incoming);
            lemma_add_batches_fit_prefix(consumer0, provider0, k as int + 1);
            lemma_first_batch_index(consumer@, incoming.prefab_id);
        }
        match find_batch_index(consumer, incoming.prefab_id) {
            Some(i) => {
                let receiving = consumer[i];
                consumer.set(
                    i,
                    ItemBatch { prefab_id: receiving.prefab_id, quantity: receiving.quantity + incoming.quantity },
                );
            },
            None => {
                consumer.push(incoming);
            },
        }
        k = k + 1;
    }
    proof {
        assert(provider0.take(provider0.len() as int) =~= provider0);
    }
    provider.clear();
}

/// Whether merging `provider` into `consumer` keeps every quantity within a
/// `u32`, which `add_batches_to` asks of its caller.
pub fn batches_fit(consumer: &Vec<ItemBatch>, provider: &Vec<ItemBatch>) -> (fits: bool)
    ensures
        fits == add_batches_fit(consumer@, provider@),
{
    let ghost provider0 = provider@;
    let mut merged: Vec<ItemBatch> = Vec::new();
    let mut j: usize = 0;
    while j < consumer.len()
        invariant
            j <= consumer@.len(),
            merged@ == consumer@.take(j as int),
        decreases consumer@.len() - j,
    {
        merged.push(consumer[j]);
        j = j + 1;
        proof {
            assert(merged@ =~= consumer@.take(j as int));
        }
    }
    proof {
        assert(consumer@.take(consumer@.len() as int) =~= consumer@);
        assert(provider0.take(0) =~= Seq::<ItemBatch>::empty());
    }
    let mut k: usize = 0;
    while k < provider.len()
        invariant
            provider@ == provider0,
            k <= provider0.len(),
            merged@ == add_batches(consumer@, provider0.take(k as int)),
            add_batches_fit(consumer@, provider0.take(k as int)),
        decreases provider0.len() - k,
    {
        let incoming = provider[k];
        proof {
            assert(provider0.take(k as int + 1).drop_last() =~= provider0.take(k as int));
            assert(provider0.take(k as int + 1).last() == incoming);
            lemma_first_batch_index(merged@, incoming.prefab_id);
        }
        match find_batch_index(&merged, incoming.prefab_id) {
            Some(i) => {
                let receiving = merged[i];
                if receiving.quantity > u32::MAX - incoming.quantity {
                    proof {
                        if add_batches_fit(consumer@, provider0) {
                            lemma_add_batches_fit_prefix(consumer@, provider0, k as int + 1);
                        }
                    }
                    return false;
                }
                merged.set(
                    i,
                    ItemBatch { prefab_id: receiving.prefab_id, quantity: receiving.quantity + incoming.quantity },
                );
            },
            None => {
                merged.push(incoming);
            },
        }
        k = k + 1;
    }
    proof {
        assert(provider0.take(provider0.len() as int) =~= provider0);
    }
    true
}

proof fn lemma_add_batches_fit_prefix(consumer: Seq<ItemBatch>, provider: Seq<ItemBatch>, n: int)
    requires
        0 <= n <= provider.len(),
        add_batches_fit(consumer, provider),
    ensures
        add_batches_fit(consumer, provider.take(n)),
    decreases provider.len(),
{
    if n < provider.len() {
        assert(provider.drop_last().take(n) =~= provider.take(n));
        lemma_add_batches_fit_prefix(consumer, provider.drop_last(), n);
    } else {
        assert(provider.take(n) =~= provider);
    }
}

// ---------------------------------------------------------------------------
// Item totals and the laws that keep them
// ---------------------------------------------------------------------------

/// The number of items of prefab `id` over all batches of `s`.
pub open spec fn total_of(s: Seq<ItemBatch>, id: ItemPrefabId) -> int
    decreases s.len(),
{
    if s.len() == 0 {
        0
    } else {
        total_of(s.drop_last(), id) + (if s.last().prefab_id == id { s.last().quantity as int } else { 0 })
    }
}

pub open spec fn contribution(b: ItemBatch, id: ItemPrefabId) -> int {
    if b.prefab_id == id { b.quantity as int } else { 0 }
}

proof fn lemma_total_of_push(s: Seq<ItemBatch>, b: ItemBatch, id: ItemPrefabId)
    ensures
        total_of(s.push(b), id) == total_of(s, id) + contribution(b, id),
{
    assert(s.push(b).drop_last() =~= s);
}

proof fn lemma_total_of_update(s: Seq<ItemBatch>, i: int, b: ItemBatch, id: ItemPrefabId)
    requires
        0 <= i < s.len(),
    ensures
        total_of(s.update(i, b), id) == total_of(s, id) - contribution(s[i], id) + contribution(b, id),
    decreases s.len(),
{
    if i == s.len() - 1 {
        assert(s.update(i, b).drop_last() =~= s.drop_last());
    } else {
        lemma_total_of_update(s.drop_last(), i, b, id);
        assert(s.update(i, b).drop_last() =~= s.drop_last().update(i, b));
    }
}

proof fn lemma_merge_batch_total(items: Seq<ItemBatch>, id: ItemPrefabId, batch: ItemBatch, other: ItemPrefabId)
    requires
        batch.prefab_id == id,
        merge_batch_fits(items, id, batch),
    ensures
        total_of(merge_batch(items, id, batch), other) == total_of(items, other) + contribution(batch, other),
{
    lemma_first_batch_index(items, id);
    let i = first_batch_index(items, id);
    if i >= 0 {
        lemma_total_of_update(
            items,
            i,
            ItemBatch { prefab_id: items[i].prefab_id, quantity: (items[i].quantity + batch.quantity) as u32 },
            other,
        );
    } else {
        lemma_total_of_push(items, batch, other);
    }
}

/// Taking from a batch neither creates nor destroys items: what is picked and
/// what is left add up to the batch; the reported weight never exceeds the
/// weight limit.
pub proof fn law_take_conserves_quantity(batch: ItemBatch, weight: u32, max_weight: u32)
    ensures
        picked_quantity_of(take_spec(batch, weight, max_weight)) + left_quantity(take_spec(batch, weight, max_weight))
            == batch.quantity,
        match take_spec(batch, weight, max_weight).picked {
            Some((_, w)) => w.0 <= max_weight,
            None => true,
        },
{
    lemma_picked_weight_fits(weight, max_weight);
}

/// Merging batch lists keeps, for every prefab, the total number of items:
/// the consumer ends up with its own items plus the provider's.
pub proof fn law_add_batches_conserves_totals(consumer: Seq<ItemBatch>, provider: Seq<ItemBatch>, id: ItemPrefabId)
    requires
        add_batches_fit(consumer, provider),
    ensures
        total_of(add_batches(consumer, provider), id) == total_of(consumer, id) + total_of(provider, id),
    decreases provider.len(),
{
    if provider.len() > 0 {
        let b = provider.last();
        law_add_batches_conserves_totals(consumer, provider.drop_last(), id);
        lemma_merge_batch_total(add_batches(consumer, provider.drop_last()), b.prefab_id, b, id);
    }
}

/// A carrier picking up a batch of the prefab it is given neither creates
/// nor destroys items: its items of that prefab plus what stays in the batch
/// are what it held plus what the batch held.
pub proof fn law_carrier_accept_conserves_items(
    inventory: CarrierInventory,
    weight: u32,
    batch: ItemBatch,
    id: ItemPrefabId,
)
    requires
        accept_fits(inventory, batch.prefab_id, weight, batch),
    ensures
        ({
            let r = take_spec(batch, weight, inventory.available_weight);
            let items = match r.picked {
                Some((picked, _)) => merge_batch(inventory.items@, batch.prefab_id, picked),
                None => inventory.items@,
            };
            let left = match r.picked {
                Some(_) => left_quantity(r),
                None => batch.quantity,
            };
            total_of(items, id) + contribution(ItemBatch { prefab_id: batch.prefab_id, quantity: left }, id)
                == total_of(inventory.items@, id) + contribution(batch, id)
        }),
{
    let r = take_spec(batch, weight, inventory.available_weight);
    law_take_conserves_quantity(batch, weight, inventory.available_weight);
    match r.picked {
        Some((picked, _)) => {
            lemma_merge_batch_total(inventory.items@, batch.prefab_id, picked, id);
        },
        None => {},
    }
}

/// A construction site is never given more than it asked for: for every
/// prefab, what `accept` adds to the available batches plus what is still
/// needed afterwards is at most what was needed before (equal when every need
/// found a batch of its prefab on offer).
pub proof fn law_accept_gives_no_more_than_needed(
    needed: Seq<ItemBatch>,
    items: Seq<ItemBatch>,
    available: Seq<ItemBatch>,
    id: ItemPrefabId,
)
    ensures
        ({
            let (kept, _, available_after) = accept_all(needed, items, available);
            total_of(available_after, id) - total_of(available, id) + total_of(kept, id) <= total_of(needed, id)
        }),
    decreases needed.len(),
{
    if needed.len() > 0 {
        let rest = needed.drop_last();
        let last = needed.last();
        law_accept_gives_no_more_than_needed(rest, items, available, id);
        let st = accept_all(rest, items, available);
        lemma_total_of_push(rest, last, id);
        assert(rest.push(last) =~= needed);
        let i = first_batch_index(st.1, last.prefab_id);
        if i >= 0 {
            lemma_first_batch_index(st.1, last.prefab_id);
            let r = deliver_spec(last.quantity, st.1[i].quantity);
            lemma_total_of_push(st.2, ItemBatch { prefab_id: st.1[i].prefab_id, quantity: r.delivered_used }, id);
            if r.expected_remains != 0 {
                lemma_total_of_push(st.0, ItemBatch { prefab_id: last.prefab_id, quantity: r.expected_remains }, id);
            }
        }
    }
}

proof fn lemma_total_of_remove(s: Seq<ItemBatch>, i: int, id: ItemPrefabId)
    requires
        0 <= i < s.len(),
    ensures
        total_of(s.remove(i), id) == total_of(s, id) - contribution(s[i], id),
    decreases s.len(),
{
    if i == s.len() - 1 {
        assert(s.remove(i) =~= s.drop_last());
    } else {
        lemma_total_of_remove(s.drop_last(), i, id);
        assert(s.remove(i).drop_last() =~= s.drop_last().remove(i));
        assert(s.remove(i).last() == s.last());
    }
}

/// Every need that finds a batch on offer during `accept` finds one of
/// exactly its quantity.
pub open spec fn accept_exact(needed: Seq<ItemBatch>, items: Seq<ItemBatch>, available: Seq<ItemBatch>) -> bool
    decreases needed.len(),
{
    if needed.len() == 0 {
        true
    } else {
        let st = accept_all(needed.drop_last(), items, available);
        let i = first_batch_index(st.1, needed.last().prefab_id);
        accept_exact(needed.drop_last(), items, available) && (i < 0 || st.1[i].quantity == needed.last().quantity)
    }
}

/// Handing batches to a construction site neither creates nor destroys items
/// when every need that finds a batch finds one of exactly its quantity: for
/// every prefab, the items left on offer plus the items available at the site
/// are those offered plus those available before. (A batch larger than its
/// need is taken whole, and one smaller than its need stays on offer while
/// its items are also counted at the site, so the law does not hold of them.)
pub proof fn law_exact_accept_conserves_items(
    needed: Seq<ItemBatch>,
    items: Seq<ItemBatch>,
    available: Seq<ItemBatch>,
    id: ItemPrefabId,
)
    requires
        accept_exact(needed, items, available),
    ensures
        ({
            let (_, items_after, available_after) = accept_all(needed, items, available);
            total_of(items_after, id) + total_of(available_after, id) == total_of(items, id) + total_of(available, id)
        }),
    decreases needed.len(),
{
    if needed.len() > 0 {
        let rest = needed.drop_last();
        let last = needed.last();
        law_exact_accept_conserves_items(rest, items, available, id);
        let st = accept_all(rest, items, available);
        let i = first_batch_index(st.1, last.prefab_id);
        if i >= 0 {
            lemma_first_batch_index(st.1, last.prefab_id);
            let r = deliver_spec(last.quantity, st.1[i].quantity);
            lemma_total_of_push(st.2, ItemBatch { prefab_id: st.1[i].prefab_id, quantity: r.delivered_used }, id);
            lemma_total_of_remove(st.1, i, id);
        }
    }
}

} // verus!
