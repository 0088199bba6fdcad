use crate::entity::EntityId;
use vstd::prelude::*;

verus! {

/// Entities waiting to produce, each with the tick at which it is due.
///
/// The pending entries are kept in a vector in the order they were pushed;
/// `try_produce` hands out the entries due now when none is overdue, which is
/// what a min-heap ordered by due tick yields.
pub struct ProducerHeap {
    pub tick: u32,
    pub heap: Vec<(EntityId, u32)>,
}

/// Whether an entry of `heap` is due before `tick` (so it blocks the heap).
pub open spec fn has_overdue(heap: Seq<(EntityId, u32)>, tick: u32) -> bool {
    exists|i: int| 0 <= i < heap.len() && heap[i].1 < tick
}

/// The entities of the entries due exactly at `tick`, in order.
pub open spec fn due_at(heap: Seq<(EntityId, u32)>, tick: u32) -> Seq<EntityId>
    decreases heap.len(),
{
    if heap.len() == 0 {
        Seq::empty()
    } else if heap.last().1 == tick {
        due_at(heap.drop_last(), tick).push(heap.last().0)
    } else {
        due_at(heap.drop_last(), tick)
    }
}

/// The entries not due exactly at `tick`, in order.
pub open spec fn not_due_at(heap: Seq<(EntityId, u32)>, tick: u32) -> Seq<(EntityId, u32)>
    decreases heap.len(),
{
    if heap.len() == 0 {
        Seq::empty()
    } else if heap.last().1 == tick {
        not_due_at(heap.drop_last(), tick)
    } else {
        not_due_at(heap.drop_last(), tick).push(heap.last())
    }
}

impl ProducerHeap {
    pub fn new() -> (heap: Self)
        ensures
            heap.tick == 0,
            heap.heap@.len() == 0,
    {
        Self { tick: 0, heap: Vec::new() }
    }

    /// Schedules `entity` to produce `duration` ticks from now.
    pub fn push(&mut self, entity: EntityId, duration: u32)
        requires
            old(self).tick + duration <= u32::MAX,
        ensures
            final(self).tick == old(self).tick,
            final(self).heap@ == old(self).heap@.push((entity, (old(self).tick + duration) as u32)),
    {
        self.heap.push((entity, self.tick + duration));
    }

    /// Advances one tick and hands out every entity due at the new tick,
    /// unless an entry is overdue: an overdue entry stays first in the order
    /// of due ticks and nothing after it is handed out.
    pub fn try_produce(&mut self) -> (produced: Vec<EntityId>)
        requires
            old(self).tick < u32::MAX,
        ensures
            final(self).tick == old(self).tick + 1,
            has_overdue(old(self).heap@, final(self).tick) ==> {
                &&& produced@.len() == 0
                &&& final(self).heap@ == old(self).heap@
            },
            !has_overdue(old(self).heap@, final(self).tick) ==> {
                &&& produced@ == due_at(old(self).heap@, final(self).tick)
                &&& final(self).heap@ == not_due_at(old(self).heap@, final(self).tick)
            },
    {
        self.tick = self.tick + 1;
        let tick = self.tick;
        let ghost heap0 = self.heap@;
        let mut k: usize = 0;
        while k < self.heap.len()
            invariant
                self.heap@ == heap0,
                heap0 == old(self).heap@,
                self.tick == tick,
                tick == old(self).tick + 1,
                k <= heap0.len(),
                forall|i: int| 0 <= i < k ==> heap0[i].1 >= tick,
            decreases heap0.len() - k,
        {
            if self.heap[k].1 < tick {
                return Vec::new();
            }
            k = k + 1;
        }
        let mut produced: Vec<EntityId> = Vec::new();
        let mut remaining: Vec<(EntityId, u32)> = Vec::new();
        let mut k: usize = 0;
        while k < self.heap.len()
            invariant
                self.heap@ == heap0,
                heap0 == old(self).heap@,
                self.tick == tick,
                tick == old(self).tick + 1,
                k <= heap0.len(),
                produced@ == due_at(heap0.take(k as int), tick),
                remaining@ == not_due_at(heap0.take(k as int), tick),
            decreases heap0.len() - k,
        {
            proof {
                assert(heap0.take(k as int + 1).drop_last() =~= heap0.take(k as int));
            }
            let entry = self.heap[k];
            if entry.1 == tick {
                produced.push(entry.0);
            } else {
                remaining.push(entry);
            }
            k = k + 1;
        }
        proof {
            assert(heap0.take(heap0.len() as int) =~= heap0);
        }
        self.heap = remaining;
        produced
    }
}

/// No pending entry is due at or before `tick`.
pub open spec fn all_pending_after(heap: Seq<(EntityId, u32)>, tick: u32) -> bool {
    forall|i: int| 0 <= i < heap.len() ==> heap[i].1 > tick
}

proof fn lemma_not_due_at_entries(heap: Seq<(EntityId, u32)>, tick: u32)
    ensures
        forall|i: int| 0 <= i < not_due_at(heap, tick).len() ==> {
            &&& not_due_at(heap, tick)[i].1 != tick
            &&& exists|j: int| 0 <= j < heap.len() && heap[j] == #[trigger] not_due_at(heap, tick)[i]
        },
    decreases heap.len(),
{
    if heap.len() > 0 {
        lemma_not_due_at_entries(heap.drop_last(), tick);
        let r = not_due_at(heap.drop_last(), tick);
        assert forall|i: int| 0 <= i < not_due_at(heap, tick).len() implies {
            &&& not_due_at(heap, tick)[i].1 != tick
            &&& exists|j: int| 0 <= j < heap.len() && heap[j] == #[trigger] not_due_at(heap, tick)[i]
        } by {
            if i < r.len() {
                let j = choose|j: int| 0 <= j < heap.drop_last().len() && heap.drop_last()[j] == #[trigger] r[i];
                assert(heap[j] == not_due_at(heap, tick)[i]);
            } else {
                assert(heap[heap.len() - 1] == not_due_at(heap, tick)[i]);
            }
        }
    }
}

/// When every entry was pushed with a duration of at least one tick, no entry
/// is ever overdue: each call of `try_produce` hands out exactly the entities
/// due at the new tick and keeps the others, all still due later.
pub proof fn law_produce_on_time(heap: Seq<(EntityId, u32)>, tick: u32)
    requires
        all_pending_after(heap, tick),
        tick < u32::MAX,
    ensures
        !has_overdue(heap, (tick + 1) as u32),
        all_pending_after(not_due_at(heap, (tick + 1) as u32), (tick + 1) as u32),
{
    lemma_not_due_at_entries(heap, (tick + 1) as u32);
}

/// Producing loses no entry and invents none: the entities handed out and
/// the entries kept are, together, the pending entries; each entry due at the
/// tick is handed out and each other entry is kept.
pub proof fn law_produce_keeps_every_entry(heap: Seq<(EntityId, u32)>, tick: u32)
    ensures
        due_at(heap, tick).len() + not_due_at(heap, tick).len() == heap.len(),
        forall|i: int| 0 <= i < heap.len() && heap[i].1 == tick ==> due_at(heap, tick).contains(#[trigger] heap[i].0),
        forall|i: int| 0 <= i < heap.len() && heap[i].1 != tick ==> not_due_at(heap, tick).contains(#[trigger] heap[i]),
    decreases heap.len(),
{
    if heap.len() > 0 {
        let rest = heap.drop_last();
        law_produce_keeps_every_entry(rest, tick);
        assert forall|i: int| 0 <= i < heap.len() && heap[i].1 == tick implies due_at(heap, tick).contains(#[trigger] heap[i].0) by {
            if i < rest.len() {
                assert(rest[i] == heap[i]);
                let j = choose|j: int| 0 <= j < due_at(rest, tick).len() && due_at(rest, tick)[j] == rest[i].0;
                if heap.last().1 == tick {
                    assert(due_at(heap, tick)[j] == heap[i].0);
                }
            } else {
                assert(due_at(heap, tick).last() == heap[i].0);
            }
        }
        assert forall|i: int| 0 <= i < heap.len() && heap[i].1 != tick implies not_due_at(heap, tick).contains(#[trigger] heap[i]) by {
            if i < rest.len() {
                assert(rest[i] == heap[i]);
                let j = choose|j: int| 0 <= j < not_due_at(rest, tick).len() && not_due_at(rest, tick)[j] == rest[i];
                if heap.last().1 != tick {
                    assert(not_due_at(heap, tick)[j] == heap[i]);
                }
            } else {
                assert(not_due_at(heap, tick).last() == heap[i]);
            }
        }
    }
}

/// Pushing with a duration of at least one tick keeps every entry pending.
pub proof fn law_push_keeps_pending(heap: Seq<(EntityId, u32)>, tick: u32, entity: EntityId, duration: u32)
    requires
        all_pending_after(heap, tick),
        duration >= 1,
        tick + duration <= u32::MAX,
    ensures
        all_pending_after(heap.push((entity, (tick + duration) as u32)), tick),
{
}

} // verus!
