//! Registry of monotonic GPU resource ids.
//!
//! Scripts only ever see ids handed out here; each id maps to the slot the
//! resource occupies in the host's resource table. Ids grow strictly and are
//! never handed out twice, so a stale id cannot silently alias a newer
//! resource that happens to reuse a table slot.

use vstd::prelude::*;
use std::collections::HashMap;

verus! {

broadcast use vstd::std_specs::hash::group_hash_axioms;

/// Maps the monotonic ids seen by scripts to resource-table slots.
pub struct GpuIdMap {
    next_id: u32,
    map: HashMap<u32, u32>,
}

impl GpuIdMap {
    /// The id the next insertion hands out.
    pub closed spec fn next(&self) -> u32 {
        self.next_id
    }

    /// The live ids and the resource-table slot each one stands for.
    pub closed spec fn entries(&self) -> Map<u32, u32> {
        self.map@
    }

    /// Every live id is positive and below the next id to be handed out.
    pub closed spec fn wf(&self) -> bool {
        &&& self.next_id >= 1
        &&& forall|k: u32| #[trigger] self.map@.contains_key(k) ==> 1 <= k < self.next_id
    }

    /// An empty registry whose first id is 1.
    pub fn new() -> (m: Self)
        ensures
            m.wf(),
            m.next() == 1,
            m.entries() == Map::<u32, u32>::empty(),
    {
        GpuIdMap { next_id: 1, map: HashMap::new() }
    }

    /// The id the next insertion hands out.
    pub fn next_id(&self) -> (r: u32)
        ensures
            r == self.next(),
    {
        self.next_id
    }

    /// Registers a resource-table slot under a fresh id and returns that id.
    pub fn insert(&mut self, resource_table_rid: u32) -> (id: u32)
        requires
            old(self).wf(),
            old(self).next() < u32::MAX,
        ensures
            final(self).wf(),
            id == old(self).next(),
            !old(self).entries().contains_key(id),
            final(self).next() == old(self).next() + 1,
            final(self).entries() == old(self).entries().insert(id, resource_table_rid),
    {
        let id = self.next_id;
        self.next_id = self.next_id + 1;
        self.map.insert(id, resource_table_rid);
        id
    }

    /// The resource-table slot an id stands for, if the id is live.
    pub fn resolve(&self, monotonic_id: u32) -> (r: Option<u32>)
        ensures
            r == (if self.entries().contains_key(monotonic_id) {
                Some(self.entries()[monotonic_id])
            } else {
                None
            }),
    {
        match self.map.get(&monotonic_id) {
            Some(rid) => Some(*rid),
            None => None,
        }
    }

    /// Forgets an id, returning the slot it stood for if it was live.
    pub fn remove(&mut self, monotonic_id: u32) -> (r: Option<u32>)
        requires
            old(self).wf(),
        ensures
            final(self).wf(),
            final(self).next() == old(self).next(),
            final(self).entries() == old(self).entries().remove(monotonic_id),
            r == (if old(self).entries().contains_key(monotonic_id) {
                Some(old(self).entries()[monotonic_id])
            } else {
                None
            }),
    {
        self.map.remove(&monotonic_id)
    }
}

/// A slot registered under an id resolves to that slot until the id is removed.
pub proof fn lemma_resolve_after_insert(before: GpuIdMap, after: GpuIdMap, id: u32, rid: u32)
    requires
        before.wf(),
        after.entries() == before.entries().insert(id, rid),
    ensures
        after.entries().contains_key(id),
        after.entries()[id] == rid,
        forall|k: u32| k != id ==> #[trigger] after.entries().contains_key(k)
            == before.entries().contains_key(k),
{
}

/// Ids are handed out in strictly increasing order: an id handed out later
/// is greater than every id live before, so a removed id never comes back.
pub proof fn lemma_ids_fresh(m: GpuIdMap, k: u32)
    requires
        m.wf(),
        m.entries().contains_key(k),
    ensures
        k < m.next(),
{
}

/// After removal, an id no longer resolves.
pub proof fn lemma_removed_id_gone(before: GpuIdMap, after: GpuIdMap, id: u32)
    requires
        after.entries() == before.entries().remove(id),
    ensures
        !after.entries().contains_key(id),
{
}

/// An operation on the registry: registering a slot, or forgetting an id.
#[derive(Clone, Copy, Debug, PartialEq, Eq, Structural)]
pub enum IdOp {
    Insert(u32),
    Remove(u32),
}

/// `after` is what `insert` or `remove` leaves of `before` for the
/// operation, and `handed` the id `insert` hands out (none for `remove`),
/// as their contracts state.
pub open spec fn id_step(before: GpuIdMap, op: IdOp, after: GpuIdMap, handed: Option<u32>) -> bool {
    match op {
        IdOp::Insert(rid) => handed == Some(before.next()) && after.next() == before.next() + 1
            && after.entries() == before.entries().insert(before.next(), rid),
        IdOp::Remove(id) => handed is None && after.next() == before.next()
            && after.entries() == before.entries().remove(id),
    }
}

/// The states of a run of operations, from the first to the last.
pub open spec fn id_run(states: Seq<GpuIdMap>, ops: Seq<IdOp>, handed: Seq<Option<u32>>) -> bool {
    &&& states.len() == ops.len() + 1
    &&& handed.len() == ops.len()
    &&& forall|i: int| 0 <= i < ops.len() ==> id_step(states[i], #[trigger] ops[i], states[i + 1], handed[i])
}

proof fn lemma_next_grows(states: Seq<GpuIdMap>, ops: Seq<IdOp>, handed: Seq<Option<u32>>, i: int, j: int)
    requires
        id_run(states, ops, handed),
        0 <= i <= j < states.len(),
    ensures
        states[i].next() <= states[j].next(),
    decreases j - i,
{
    if i < j {
        lemma_next_grows(states, ops, handed, i, j - 1);
        assert(id_step(states[j - 1], ops[j - 1], states[j], handed[j - 1]));
    }
}

/// Over any run of inserts and removes, the ids handed out strictly
/// increase, so no id is ever handed out twice.
pub proof fn lemma_ids_never_repeat(states: Seq<GpuIdMap>, ops: Seq<IdOp>, handed: Seq<Option<u32>>)
    requires
        id_run(states, ops, handed),
    ensures
        forall|i: int, j: int| 0 <= i < j < handed.len() && handed[i] is Some && handed[j] is Some
            ==> (#[trigger] handed[i])->0 < (#[trigger] handed[j])->0,
{
    assert forall|i: int, j: int| 0 <= i < j < handed.len() && handed[i] is Some && handed[j] is Some
        implies (#[trigger] handed[i])->0 < (#[trigger] handed[j])->0 by {
        assert(id_step(states[i], ops[i], states[i + 1], handed[i]));
        assert(id_step(states[j], ops[j], states[j + 1], handed[j]));
        lemma_next_grows(states, ops, handed, i + 1, j);
        match ops[i] {
            IdOp::Insert(_) => {},
            IdOp::Remove(_) => {},
        }
        match ops[j] {
            IdOp::Insert(_) => {},
            IdOp::Remove(_) => {},
        }
    }
}

proof fn lemma_stale_at(states: Seq<GpuIdMap>, ops: Seq<IdOp>, handed: Seq<Option<u32>>, id: u32, k: int)
    requires
        id_run(states, ops, handed),
        !states[0].entries().contains_key(id),
        id < states[0].next(),
        0 <= k < states.len(),
    ensures
        !states[k].entries().contains_key(id),
    decreases k,
{
    if k > 0 {
        lemma_stale_at(states, ops, handed, id, k - 1);
        lemma_next_grows(states, ops, handed, 0, k - 1);
        assert(id_step(states[k - 1], ops[k - 1], states[k], handed[k - 1]));
        match ops[k - 1] {
            IdOp::Insert(_) => {},
            IdOp::Remove(_) => {},
        }
    }
}

/// An id handed out and then removed never resolves again, whatever inserts
/// and removes follow: every later insert hands out an id at or past the
/// next id, which is already past it. A stale id never stands for a newer
/// resource, even one that reuses its table slot.
pub proof fn lemma_stale_id_stays_gone(states: Seq<GpuIdMap>, ops: Seq<IdOp>, handed: Seq<Option<u32>>, id: u32)
    requires
        id_run(states, ops, handed),
        !states[0].entries().contains_key(id),
        id < states[0].next(),
    ensures
        forall|k: int| 0 <= k < states.len() ==> !(#[trigger] states[k]).entries().contains_key(id),
{
    assert forall|k: int| 0 <= k < states.len() implies !(#[trigger] states[k]).entries().contains_key(id) by {
        lemma_stale_at(states, ops, handed, id, k);
    }
}

} // verus!
