use std::collections::HashMap;
use vstd::prelude::*;

use crate::state::{TaskEntry, TaskId};

verus! {

broadcast use vstd::std_specs::hash::group_hash_axioms;

/// Why a task registry operation was refused.
#[derive(Clone, Copy, Debug, PartialEq, Eq, Structural)]
pub enum TaskError {
    /// An entry is already bound to this id.
    DuplicateTaskId { id: u64 },
    /// No entry is bound to this id.
    UnknownTaskId { id: u64 },
    /// Every 64-bit identifier has been handed out.
    IdsExhausted,
}

/// The abstract state of a task registry: the next identifier to hand out
/// and the entries bound so far.
pub struct RegistryModel {
    pub next: u64,
    pub entries: Map<u64, TaskEntry>,
}

/// Registry state after one allocation, and the identifier it hands out.
pub open spec fn allocate_model(m: RegistryModel) -> (RegistryModel, u64) {
    (RegistryModel { next: (m.next + 1) as u64, entries: m.entries }, m.next)
}

/// Registry state after one task creation (an allocation and a binding of the
/// new id), and the identifier of the new task.
pub open spec fn create_model(m: RegistryModel, entry: TaskEntry) -> (RegistryModel, u64) {
    (RegistryModel { next: (m.next + 1) as u64, entries: m.entries.insert(m.next, entry) }, m.next)
}

/// Registry state after `entries.len()` task creations from `m`, and the ids
/// handed out, in order.
pub open spec fn create_all_model(m: RegistryModel, entries: Seq<TaskEntry>) -> (RegistryModel, Seq<u64>)
    decreases entries.len(),
{
    if entries.len() == 0 {
        (m, Seq::empty())
    } else {
        let (m1, id) = create_model(m, entries[0]);
        let (m2, ids) = create_all_model(m1, entries.drop_first());
        (m2, seq![id] + ids)
    }
}

/// Every bound id lies below the counter.
pub open spec fn keys_below_next(m: RegistryModel) -> bool {
    forall|k: u64| m.entries.contains_key(k) ==> k < m.next
}

/// Each of the creations that `create_all_model` describes succeeds: the
/// counter is not exhausted and the id it hands out is not yet bound.
pub open spec fn creations_succeed(m: RegistryModel, entries: Seq<TaskEntry>) -> bool
    decreases entries.len(),
{
    if entries.len() == 0 {
        true
    } else {
        &&& m.next < u64::MAX
        &&& !m.entries.contains_key(m.next)
        &&& creations_succeed(create_model(m, entries[0]).0, entries.drop_first())
    }
}

/// Creations in a row from a registry whose bound ids all lie below the
/// counter all succeed, hand out consecutive ids from the counter on in call
/// order, and add exactly those ids to the registry.
pub proof fn lemma_creations_consecutive(m: RegistryModel, entries: Seq<TaskEntry>)
    requires
        keys_below_next(m),
        m.next + entries.len() <= u64::MAX,
    ensures
        ({
            let (m2, ids) = create_all_model(m, entries);
            &&& creations_succeed(m, entries)
            &&& keys_below_next(m2)
            &&& ids.len() == entries.len()
            &&& forall|i: int| 0 <= i < ids.len() ==> ids[i] == m.next + i
            &&& m2.next == m.next + entries.len()
            &&& m2.entries.dom() == m.entries.dom().union(
                Set::new(|k: u64| m.next <= k < m.next + entries.len()),
            )
        }),
    decreases entries.len(),
{
    if entries.len() == 0 {
        let (m2, ids) = create_all_model(m, entries);
        assert(m2.entries.dom() =~= m.entries.dom().union(
            Set::new(|k: u64| m.next <= k < m.next + entries.len()),
        ));
    } else {
        let (m1, id) = create_model(m, entries[0]);
        let rest = entries.drop_first();
        assert(keys_below_next(m1));
        lemma_creations_consecutive(m1, rest);
        let (m2, ids) = create_all_model(m, entries);
        let (m3, ids1) = create_all_model(m1, rest);
        assert(ids == seq![id] + ids1);
        assert forall|i: int| 0 <= i < ids.len() implies ids[i] == m.next + i by {
            if i > 0 {
                assert(ids[i] == ids1[i - 1]);
            }
        }
        assert(m2.entries.dom() =~= m.entries.dom().union(
            Set::new(|k: u64| m.next <= k < m.next + entries.len()),
        ));
    }
}

/// Creating tasks one after another in a fresh registry hands out
/// 0, 1, ..., n - 1 in call order, each once, and leaves exactly those ids bound.
pub proof fn lemma_fresh_registry_ids(entries: Seq<TaskEntry>)
    requires
        entries.len() <= u64::MAX,
    ensures
        ({
            let fresh = RegistryModel { next: 0, entries: Map::empty() };
            let (m, ids) = create_all_model(fresh, entries);
            &&& creations_succeed(fresh, entries)
            &&& ids.len() == entries.len()
            &&& forall|i: int| 0 <= i < ids.len() ==> ids[i] == i
            &&& m.entries.dom() == Set::new(|k: u64| k < entries.len())
        }),
{
    let fresh = RegistryModel { next: 0, entries: Map::empty() };
    lemma_creations_consecutive(fresh, entries);
    let (m, ids) = create_all_model(fresh, entries);
    assert(m.entries.dom() =~= Set::new(|k: u64| k < entries.len()));
}

/// An id just handed out has no entry yet when every bound id lies below the
/// counter, as in a fresh registry: resolving it fails with `UnknownTaskId`.
pub proof fn lemma_allocated_id_unbound(m: RegistryModel)
    requires
        keys_below_next(m),
        m.next < u64::MAX,
    ensures
        !allocate_model(m).0.entries.contains_key(allocate_model(m).1),
        keys_below_next(allocate_model(m).0),
{
}

/// The task registry: hands out task ids and keeps the entry bound to each.
pub struct TaskRegistry {
    next: TaskId,
    tasks: HashMap<u64, TaskEntry>,
}

impl View for TaskRegistry {
    type V = RegistryModel;

    closed spec fn view(&self) -> RegistryModel {
        RegistryModel { next: self.next.0, entries: self.tasks@ }
    }
}

impl TaskRegistry {
    /// An empty registry whose first id is zero.
    pub fn new() -> (r: Self)
        ensures
            r@.next == 0,
            r@.entries == Map::<u64, TaskEntry>::empty(),
    {
        TaskRegistry { next: TaskId(0), tasks: HashMap::new() }
    }

    /// The id that the next allocation will hand out.
    pub fn peek_next_id(&self) -> (r: TaskId)
        ensures
            r.0 == self@.next,
    {
        self.next
    }

    /// Hands out the next id and advances the counter in one step.
    pub fn allocate_task_id(&mut self) -> (r: Result<TaskId, TaskError>)
        ensures
            old(self)@.next == u64::MAX ==> r == Err::<TaskId, TaskError>(TaskError::IdsExhausted)
                && final(self)@ == old(self)@,
            old(self)@.next < u64::MAX ==> r == Ok::<TaskId, TaskError>(TaskId(allocate_model(old(self)@).1))
                && final(self)@ == allocate_model(old(self)@).0,
            keys_below_next(old(self)@) ==> keys_below_next(final(self)@),
    {
        if self.next.0 == u64::MAX {
            return Err(TaskError::IdsExhausted);
        }
        let id = self.next;
        self.next = id.next_id();
        Ok(id)
    }

    /// Binds `entry` to `id`; an id that already has an entry is refused and
    /// the registry is left as it was.
    pub fn bind(&mut self, id: TaskId, entry: TaskEntry) -> (r: Result<(), TaskError>)
        ensures
            old(self)@.entries.contains_key(id.0) ==> r == Err::<(), TaskError>(
                TaskError::DuplicateTaskId { id: id.0 },
            ) && final(self)@ == old(self)@,
            !old(self)@.entries.contains_key(id.0) ==> r is Ok && final(self)@ == (RegistryModel {
                next: old(self)@.next,
                entries: old(self)@.entries.insert(id.0, entry),
            }),
            keys_below_next(old(self)@) && id.0 < old(self)@.next ==> keys_below_next(final(self)@),
    {
        if self.tasks.contains_key(&id.0) {
            return Err(TaskError::DuplicateTaskId { id: id.0 });
        }
        self.tasks.insert(id.0, entry);
        Ok(())
    }

    /// The entry bound to `id`.
    pub fn resolve(&self, id: TaskId) -> (r: Result<&TaskEntry, TaskError>)
        ensures
            self@.entries.contains_key(id.0) ==> (r matches Ok(e) && *e == self@.entries[id.0]),
            !self@.entries.contains_key(id.0) ==> r == Err::<&TaskEntry, TaskError>(
                TaskError::UnknownTaskId { id: id.0 },
            ),
    {
        match self.tasks.get(&id.0) {
            Some(e) => Ok(e),
            None => Err(TaskError::UnknownTaskId { id: id.0 }),
        }
    }

    /// Allocates an id and binds a new entry to it, as one step: on failure
    /// the registry is left as it was.
    pub fn create_task(&mut self, frequency: String, domain_name: String) -> (r: Result<TaskId, TaskError>)
        ensures
            ({
                let entry = TaskEntry { frequency, domain_name };
                let (m, id) = create_model(old(self)@, entry);
                if old(self)@.next == u64::MAX {
                    r == Err::<TaskId, TaskError>(TaskError::IdsExhausted) && final(self)@ == old(self)@
                } else if old(self)@.entries.contains_key(id) {
                    r == Err::<TaskId, TaskError>(TaskError::DuplicateTaskId { id })
                        && final(self)@ == old(self)@
                } else {
                    r == Ok::<TaskId, TaskError>(TaskId(id)) && final(self)@ == m
                }
            }),
            keys_below_next(old(self)@) ==> keys_below_next(final(self)@),
    {
        if self.next.0 == u64::MAX {
            return Err(TaskError::IdsExhausted);
        }
        let id = self.next;
        if self.tasks.contains_key(&id.0) {
            return Err(TaskError::DuplicateTaskId { id: id.0 });
        }
        self.tasks.insert(id.0, TaskEntry { frequency, domain_name });
        self.next = id.next_id();
        assert(keys_below_next(old(self)@) ==> keys_below_next(self@)) by {
            if keys_below_next(old(self)@) {
                assert forall|k: u64| self@.entries.contains_key(k) implies k < self@.next by {
                    if k != id.0 {
                        assert(old(self)@.entries.contains_key(k));
                    }
                }
            }
        }
        Ok(id)
    }
}

} // verus!
