//! Stable handles for entities and GPU sub-resources.
//!
//! An `Id` is an opaque number, unique within its `IdType` partition. The
//! `IdManager` keeps one monotonic counter per partition and never reuses a
//! value: allocation returns the current counter and then increments it.

use vstd::prelude::*;

use crate::table::{KeyEq, Table};

verus! {

/// The integer type that backs every handle.
pub type IdSize = u64;

/// An opaque handle. Equality, ordering and hashing go by the underlying
/// integer.
#[derive(Copy, Clone, Debug, PartialEq, Eq, Hash, PartialOrd, Ord, Structural)]
pub struct Id {
    id: IdSize,
}

/// The resource-kind partitions handles are allocated from. `Custom` wraps
/// any kind to give an extension partition distinct from all others.
#[derive(Debug, PartialEq, Eq, Hash)]
pub enum IdType {
    Custom(Box<IdType>),
    World,
    Entity,
    Component,
    Vertex,
    Index,
    Texture,
    DrawMethod,
    Matrix,
    Color,
}

/// A marker for user-defined id partitions.
pub trait IdTypeTrait {

}

impl KeyEq for Id {
    fn key_eq(&self, other: &Self) -> (r: bool)
        ensures
            r == (self == other),
    {
        self.id == other.id
    }
}

impl KeyEq for IdType {
    fn key_eq(&self, other: &Self) -> (r: bool)
        ensures
            r == (self == other),
        decreases self,
    {
        match (self, other) {
            (IdType::Custom(a), IdType::Custom(b)) => a.key_eq(b),
            (IdType::World, IdType::World) => true,
            (IdType::Entity, IdType::Entity) => true,
            (IdType::Component, IdType::Component) => true,
            (IdType::Vertex, IdType::Vertex) => true,
            (IdType::Index, IdType::Index) => true,
            (IdType::Texture, IdType::Texture) => true,
            (IdType::DrawMethod, IdType::DrawMethod) => true,
            (IdType::Matrix, IdType::Matrix) => true,
            (IdType::Color, IdType::Color) => true,
            _ => false,
        }
    }
}

/// Per-partition allocation counters. Created once, mutated only by
/// allocation; callers hold exclusive access.
pub struct IdManager {
    map: Table<IdType, IdSize>,
}

impl Id {
    /// The underlying integer of the handle.
    pub closed spec fn spec_value(self) -> IdSize {
        self.id
    }

    /// Allocates a fresh handle in the partition `id_type`: its value is the
    /// partition's current counter, which the manager then increments.
    pub fn new(manager: &mut IdManager, id_type: IdType) -> (r: Id)
        requires
            old(manager).counter_of(id_type) < IdSize::MAX,
        ensures
            r.spec_value() == old(manager).counter_of(id_type),
            final(manager).counters() == old(manager).counters().insert(
                id_type,
                (old(manager).counter_of(id_type) + 1) as IdSize,
            ),
    {
        Id { id: manager.get_id(id_type) }
    }

    /// The underlying integer of the handle.
    pub fn value(&self) -> (r: IdSize)
        ensures
            r == self.spec_value(),
    {
        self.id
    }
}

/// The counter of partition `t` in the counter map `m`: an unseen partition
/// counts from zero.
pub open spec fn counter_val(m: Map<IdType, IdSize>, t: IdType) -> IdSize {
    if m.dom().contains(t) {
        m[t]
    } else {
        0
    }
}

/// One allocation step on the counter map, exactly as `get_id` performs
/// it: the counter of the allocated partition moves up by one.
pub open spec fn alloc_step(m: Map<IdType, IdSize>, t: IdType) -> Map<IdType, IdSize> {
    m.insert(t, (counter_val(m, t) + 1) as IdSize)
}

/// The counter map after the allocations `ops`, run in order from `m`.
pub open spec fn run_counters(m: Map<IdType, IdSize>, ops: Seq<IdType>) -> Map<IdType, IdSize>
    decreases ops.len(),
{
    if ops.len() == 0 {
        m
    } else {
        run_counters(alloc_step(m, ops[0]), ops.drop_first())
    }
}

/// The value returned by the allocation at position `i` of the run `ops`
/// from `m`: the counter its partition holds just before that step.
pub open spec fn alloc_result(m: Map<IdType, IdSize>, ops: Seq<IdType>, i: int) -> IdSize {
    counter_val(run_counters(m, ops.take(i)), ops[i])
}

/// No allocation in the run overflows its partition's counter.
pub open spec fn run_in_bounds(m: Map<IdType, IdSize>, ops: Seq<IdType>) -> bool {
    forall|k: int| 0 <= k < ops.len() ==> alloc_result(m, ops, k) < IdSize::MAX
}

proof fn lemma_run_extend(m: Map<IdType, IdSize>, ops: Seq<IdType>, n: int)
    requires
        0 <= n < ops.len(),
    ensures
        run_counters(m, ops.take(n + 1)) == alloc_step(run_counters(m, ops.take(n)), ops[n]),
    decreases n,
{
    if n == 0 {
        assert(ops.take(1)[0] == ops[0]);
        assert(ops.take(1).drop_first() =~= Seq::<IdType>::empty());
        assert(ops.take(0).len() == 0);
        assert(run_counters(m, ops.take(1)) == run_counters(
            alloc_step(m, ops[0]),
            ops.take(1).drop_first(),
        ));
    } else {
        assert(ops.take(n + 1)[0] == ops[0]);
        assert(ops.take(n)[0] == ops[0]);
        assert(ops.take(n + 1).drop_first() =~= ops.drop_first().take(n));
        assert(ops.take(n).drop_first() =~= ops.drop_first().take(n - 1));
        assert(ops.drop_first()[n - 1] == ops[n]);
        lemma_run_extend(alloc_step(m, ops[0]), ops.drop_first(), n - 1);
    }
}

proof fn lemma_counter_monotone(m: Map<IdType, IdSize>, ops: Seq<IdType>, t: IdType, a: int, b: int)
    requires
        0 <= a <= b <= ops.len(),
        forall|k: int| 0 <= k < b ==> alloc_result(m, ops, k) < IdSize::MAX,
    ensures
        counter_val(run_counters(m, ops.take(a)), t) <= counter_val(run_counters(m, ops.take(b)), t),
    decreases b - a,
{
    if a < b {
        lemma_counter_monotone(m, ops, t, a, b - 1);
        lemma_run_extend(m, ops, b - 1);
        let before = run_counters(m, ops.take(b - 1));
        assert(alloc_result(m, ops, b - 1) == counter_val(before, ops[b - 1]));
        assert(counter_val(alloc_step(before, ops[b - 1]), t) >= counter_val(before, t));
    }
}

/// Ids issued by one manager within one partition never repeat: along any
/// allocation run that stays in bounds, two allocations of the same
/// partition return strictly increasing values.
pub proof fn lemma_ids_strictly_increasing(
    m: Map<IdType, IdSize>,
    ops: Seq<IdType>,
    i: int,
    j: int,
)
    requires
        0 <= i < j < ops.len(),
        ops[i] == ops[j],
        run_in_bounds(m, ops),
    ensures
        alloc_result(m, ops, i) < alloc_result(m, ops, j),
{
    let t = ops[i];
    lemma_run_extend(m, ops, i);
    let before = run_counters(m, ops.take(i));
    assert(alloc_result(m, ops, i) < IdSize::MAX);
    assert(counter_val(before, t) < IdSize::MAX);
    assert(counter_val(run_counters(m, ops.take(i + 1)), t) == counter_val(before, t) + 1);
    lemma_counter_monotone(m, ops, t, i + 1, j);
}

impl IdManager {
    /// The counter of each partition seen so far.
    pub closed spec fn counters(&self) -> Map<IdType, IdSize> {
        self.map@
    }

    /// The counter of partition `id_type`: zero if unseen.
    pub open spec fn counter_of(&self, id_type: IdType) -> IdSize {
        counter_val(self.counters(), id_type)
    }

    /// A manager with every counter at zero.
    pub fn new() -> (r: IdManager)
        ensures
            r.counters() == Map::<IdType, IdSize>::empty(),
    {
        IdManager { map: Table::new() }
    }

    /// Returns the current counter of `id_type` and increments it: one
    /// allocation step.
    pub fn get_id(&mut self, id_type: IdType) -> (r: IdSize)
        requires
            old(self).counter_of(id_type) < IdSize::MAX,
        ensures
            r == old(self).counter_of(id_type),
            final(self).counters() == alloc_step(old(self).counters(), id_type),
    {
        let id: IdSize = match self.map.get(&id_type) {
            Some(v) => *v,
            None => 0,
        };
        self.map.insert(id_type, id + 1);
        id
    }
}

} // verus!
