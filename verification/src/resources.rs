use vstd::prelude::*;

verus! {

/// A kind of raw resource.
#[derive(Clone, Copy, Debug, PartialEq, Eq, Structural)]
pub enum ResourceKind {
    Wood,
}

/// A quantity of one kind of resource.
#[derive(Clone, Copy, Debug, PartialEq, Eq, Structural)]
pub struct ResourceChunk {
    pub kind: ResourceKind,
    pub quantity: u32,
}

/// The resources that something breaks into when destroyed.
pub struct BreaksIntoResources(pub Vec<ResourceChunk>);

/// The resources that a carrier is carrying.
pub struct CarryingResources(pub Vec<ResourceChunk>);

/// A creature able to carry resources up to a volume.
#[derive(Clone, Copy, Debug, PartialEq, Eq, Structural)]
pub struct ResourceCarrier {
    pub max_volume: u32,
}

/// The outcome of adding a chunk to carried chunks.
pub enum ResourceChunkAddingResult {
    /// The whole chunk was added; the new carried chunks.
    AddedAll(Vec<ResourceChunk>),
    /// Part of the chunk was added; the new carried chunks and what remains of the chunk.
    AddedPart(Vec<ResourceChunk>, ResourceChunk),
    /// Nothing fitted.
    AddedNone,
}

/// The volume that one unit of a resource takes.
pub open spec fn volume_per_unit(kind: ResourceKind) -> nat {
    match kind {
        ResourceKind::Wood => 20,
    }
}

pub fn resource_volume_per_unit(resource_kind: ResourceKind) -> (volume: u32)
    ensures
        volume == volume_per_unit(resource_kind),
{
    match resource_kind {
        ResourceKind::Wood => 20,
    }
}

/// How many units of `chunk` fit into `available_volume`, at most all of them.
pub open spec fn max_units_spec(chunk: ResourceChunk, available_volume: u32) -> u32 {
    let fitting = (available_volume as nat / volume_per_unit(chunk.kind)) as u32;
    if fitting <= chunk.quantity { fitting } else { chunk.quantity }
}

pub fn max_resource_units_from_chunk(chunk: &ResourceChunk, available_volume: u32) -> (units: u32)
    ensures
        units == max_units_spec(*chunk, available_volume),
        units <= chunk.quantity,
        volume_per_unit(chunk.kind) * units <= available_volume,
        units < chunk.quantity ==> volume_per_unit(chunk.kind) * (units + 1) > available_volume,
{
    proof {
        law_units_are_the_most_that_fit(*chunk, available_volume);
    }
    let fitting = available_volume / resource_volume_per_unit(chunk.kind);
    if fitting <= chunk.quantity { fitting } else { chunk.quantity }
}

/// The units taken from a chunk are the most that fit: no more than the
/// chunk holds, their volume within the free volume, and either the whole
/// chunk or so many that one unit more would not fit.
pub proof fn law_units_are_the_most_that_fit(chunk: ResourceChunk, available_volume: u32)
    ensures
        max_units_spec(chunk, available_volume) <= chunk.quantity,
        volume_per_unit(chunk.kind) * max_units_spec(chunk, available_volume) <= available_volume,
        max_units_spec(chunk, available_volume) < chunk.quantity ==> volume_per_unit(chunk.kind) * (
        max_units_spec(chunk, available_volume) + 1) > available_volume,
{
    let v = volume_per_unit(chunk.kind);
    assert(v == 20);
    let a = available_volume as nat;
    assert(20 * (a / 20) <= a && a < 20 * (a / 20 + 1)) by (nonlinear_arith);
}

/// The total volume of resource chunks.
pub open spec fn volume_of(chunks: Seq<ResourceChunk>) -> int
    decreases chunks.len(),
{
    if chunks.len() == 0 {
        0
    } else {
        volume_of(chunks.drop_last()) + volume_per_unit(chunks.last().kind) * chunks.last().quantity
    }
}

proof fn lemma_volume_of_prefix(chunks: Seq<ResourceChunk>, n: int)
    requires
        0 <= n <= chunks.len(),
    ensures
        0 <= volume_of(chunks.take(n)) <= volume_of(chunks),
    decreases chunks.len(),
{
    if n < chunks.len() {
        assert(chunks.drop_last().take(n) =~= chunks.take(n));
        lemma_volume_of_prefix(chunks.drop_last(), n);
    } else {
        assert(chunks.take(n) =~= chunks);
        if chunks.len() > 0 {
            lemma_volume_of_prefix(chunks.drop_last(), n - 1);
            assert(chunks.drop_last().take(n - 1) =~= chunks.drop_last());
        }
    }
}

fn copy_chunks(chunks: &Vec<ResourceChunk>) -> (copy: Vec<ResourceChunk>)
    ensures
        copy@ == chunks@,
{
    let mut copy: Vec<ResourceChunk> = Vec::new();
    let mut k: usize = 0;
    while k < chunks.len()
        invariant
            k <= chunks.len(),
            copy@ == chunks@.take(k as int),
        decreases chunks.len() - k,
    {
        copy.push(chunks[k]);
        k = k + 1;
        proof {
            assert(copy@ =~= chunks@.take(k as int));
        }
    }
    proof {
        assert(chunks@.take(chunks.len() as int) =~= chunks@);
    }
    copy
}

/// Adds as much of `added_resource_chunk` to the carried chunks as the free
/// volume allows: all of it, a part of it (with what remains), or nothing.
pub fn add_resource_chunk(
    resource_chunks: &Vec<ResourceChunk>,
    added_resource_chunk: &ResourceChunk,
    max_volume: u32,
) -> (result: ResourceChunkAddingResult)
    requires
        volume_of(resource_chunks@) <= max_volume,
    ensures
        ({
            let units = max_units_spec(*added_resource_chunk, (max_volume - volume_of(resource_chunks@)) as u32);
            match result {
                ResourceChunkAddingResult::AddedNone => units == 0,
                ResourceChunkAddingResult::AddedAll(chunks) => {
                    &&& units != 0
                    &&& units == added_resource_chunk.quantity
                    &&& chunks@ == resource_chunks@.push(*added_resource_chunk)
                },
                ResourceChunkAddingResult::AddedPart(chunks, remaining) => {
                    &&& units != 0
                    &&& units != added_resource_chunk.quantity
                    &&& chunks@ == resource_chunks@.push(
                        ResourceChunk { kind: added_resource_chunk.kind, quantity: units },
                    )
                    &&& remaining == ResourceChunk {
                        kind: added_resource_chunk.kind,
                        quantity: (added_resource_chunk.quantity - units) as u32,
                    }
                },
            }
        }),
{
    let ghost all = resource_chunks@;
    let mut current_volume: u32 = 0;
    let mut k: usize = 0;
    while k < resource_chunks.len()
        invariant
            resource_chunks@ == all,
            k <= all.len(),
            current_volume == volume_of(all.take(k as int)),
            volume_of(all) <= max_volume,
        decreases all.len() - k,
    {
        proof {
            assert(all.take(k as int + 1).drop_last() =~= all.take(k as int));
            lemma_volume_of_prefix(all, k as int + 1);
        }
        let chunk = resource_chunks[k];
        current_volume = current_volume + resource_volume_per_unit(chunk.kind) * chunk.quantity;
        k = k + 1;
    }
    proof {
        assert(all.take(all.len() as int) =~= all);
    }
    let available_volume = max_volume - current_volume;
    let quantity_to_add = max_resource_units_from_chunk(added_resource_chunk, available_volume);
    if quantity_to_add == 0 {
        ResourceChunkAddingResult::AddedNone
    } else if quantity_to_add == added_resource_chunk.quantity {
        let mut new_resource_chunks = copy_chunks(resource_chunks);
        new_resource_chunks.push(*added_resource_chunk);
        ResourceChunkAddingResult::AddedAll(new_resource_chunks)
    } else {
        let mut new_resource_chunks = copy_chunks(resource_chunks);
        new_resource_chunks.push(ResourceChunk { kind: added_resource_chunk.kind, quantity: quantity_to_add });
        ResourceChunkAddingResult::AddedPart(
            new_resource_chunks,
            ResourceChunk {
                kind: added_resource_chunk.kind,
                quantity: added_resource_chunk.quantity - quantity_to_add,
            },
        )
    }
}

/// Adding a chunk never makes a carrier carry more than its maximum volume,
/// and the units added plus the units remaining are the units of the chunk.
pub proof fn law_added_chunk_fits(chunks: Seq<ResourceChunk>, added: ResourceChunk, max_volume: u32)
    requires
        volume_of(chunks) <= max_volume,
    ensures
        ({
            let units = max_units_spec(added, (max_volume - volume_of(chunks)) as u32);
            &&& volume_of(chunks.push(ResourceChunk { kind: added.kind, quantity: units })) <= max_volume
            &&& units <= added.quantity
        }),
{
    lemma_volume_of_prefix(chunks, 0);
    assert(chunks.take(0) =~= Seq::<ResourceChunk>::empty());
    let free = (max_volume - volume_of(chunks)) as u32;
    let units = max_units_spec(added, free);
    assert(volume_per_unit(added.kind) == 20);
    assert(20 * (free as nat / 20) <= free);
    let pushed = chunks.push(ResourceChunk { kind: added.kind, quantity: units });
    assert(pushed.drop_last() =~= chunks);
}

} // verus!
