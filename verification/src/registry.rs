//! The registry of outstanding tasks: a growable table indexed by task id,
//! and the counter that issues the ids.

use vstd::prelude::*;
use crate::task::Task;
use crate::task::TaskHandle;

verus! {

/// The registry as a mathematical value.
pub struct TaskDbView {
    /// The table: slot `i` holds the handle of task `i`, or nothing.
    pub slots: Seq<Option<TaskHandle>>,
    /// The id that the next registration gets.
    pub next_id: nat,
}

impl TaskDbView {
    /// The registry that has issued no id and stored no handle.
    pub open spec fn empty() -> TaskDbView {
        TaskDbView { slots: Seq::empty(), next_id: 0 }
    }

    /// Whether a handle is stored under `id`.
    pub open spec fn is_live(self, id: u64) -> bool {
        id < self.slots.len() && self.slots[id as int] is Some
    }

    /// The handle stored under `id`, if there is one.
    pub open spec fn handle(self, id: u64) -> Option<TaskHandle> {
        if self.is_live(id) {
            self.slots[id as int]
        } else {
            None
        }
    }

    /// Every stored handle sits in the slot of its own id.
    pub open spec fn well_formed(self) -> bool {
        forall|i: int|
            0 <= i < self.slots.len() ==> (#[trigger] self.slots[i] matches Some(h) ==> h.id == i)
    }

    /// The registry after one more id was issued.
    pub open spec fn registered(self) -> TaskDbView {
        TaskDbView { slots: self.slots, next_id: self.next_id + 1 }
    }

    /// The table grown, if need be, until `id` is addressable.
    pub open spec fn grown(self, id: u64) -> Seq<Option<TaskHandle>> {
        if id < self.slots.len() {
            self.slots
        } else {
            self.slots + Seq::new((id + 1 - self.slots.len()) as nat, |i: int| None)
        }
    }

    /// The registry after `handle` was stored under its id.
    pub open spec fn stored(self, handle: TaskHandle) -> TaskDbView {
        TaskDbView {
            slots: self.grown(handle.id).update(handle.id as int, Some(handle)),
            next_id: self.next_id,
        }
    }

    /// The registry after the handle under `id`, if any, was removed.
    pub open spec fn deleted(self, id: u64) -> TaskDbView {
        if self.is_live(id) {
            TaskDbView { slots: self.slots.update(id as int, None), next_id: self.next_id }
        } else {
            self
        }
    }
}

/// The table of outstanding tasks and the id counter.
pub struct TaskDb {
    tasks: Vec<Option<TaskHandle>>,
    cur_id: u64,
}

impl View for TaskDb {
    type V = TaskDbView;

    closed spec fn view(&self) -> TaskDbView {
        TaskDbView { slots: self.tasks@, next_id: self.cur_id as nat }
    }
}

impl TaskDb {
    #[verifier::type_invariant]
    spec fn slots_keep_their_ids(self) -> bool {
        self@.well_formed()
    }

    /// A registry that has issued no id and holds no handle.
    pub fn new() -> (db: Self)
        ensures
            db@ == TaskDbView::empty(),
    {
        TaskDb { tasks: Vec::new(), cur_id: 0 }
    }

    /// The number of ids issued so far, which is the id that comes next.
    pub fn issued(&self) -> (count: u64)
        ensures
            count == self@.next_id,
    {
        self.cur_id
    }

    /// The number of slots in the table.
    pub fn len(&self) -> (len: usize)
        ensures
            len == self@.slots.len(),
    {
        self.tasks.len()
    }

    /// Whether a handle is stored under `id`.
    pub fn is_live(&self, id: u64) -> (live: bool)
        ensures
            live == self@.is_live(id),
            self@.well_formed(),
    {
        proof {
            use_type_invariant(self);
        }
        if id < self.tasks.len() as u64 {
            self.tasks[id as usize].is_some()
        } else {
            false
        }
    }

    /// Issues the next id. Ids count up from zero and none comes twice.
    fn next_id(&mut self) -> (id: u64)
        requires
            old(self)@.next_id < u64::MAX,
        ensures
            id == old(self)@.next_id,
            final(self)@ == old(self)@.registered(),
    {
        proof {
            use_type_invariant(&*self);
        }
        let next_id = self.cur_id;
        self.cur_id += 1;
        next_id
    }

    /// Issues the next id to a new task that is bound to `ctrl_c`, the
    /// channel on which tasks ask for their teardown. The task is not stored:
    /// that is done with the handle it gets once it runs.
    pub fn register(&mut self, ctrl_c: tokio::sync::mpsc::Sender<u64>) -> (task: Task)
        requires
            old(self)@.next_id < u64::MAX,
        ensures
            task.id() == old(self)@.next_id,
            task.notifier() == ctrl_c,
            final(self)@ == old(self)@.registered(),
    {
        Task::new(self.next_id(), ctrl_c)
    }

    /// Records the handle of a running task in the slot of its id. The table
    /// grows as far as that takes and never shrinks, so handles may come in
    /// any order of their ids.
    pub fn store(&mut self, task_handle: TaskHandle)
        requires
            task_handle.id < usize::MAX,
        ensures
            final(self)@ == old(self)@.stored(task_handle),
            final(self)@.well_formed(),
    {
        proof {
            use_type_invariant(&*self);
        }
        let id = task_handle.id as usize;
        let mut tasks = Vec::new();
        std::mem::swap(&mut tasks, &mut self.tasks);
        while tasks.len() <= id
            invariant
                id == task_handle.id,
                id < usize::MAX,
                old(self)@.slots.len() <= tasks@.len(),
                tasks@.len() <= old(self)@.slots.len() || tasks@.len() <= id + 1,
                tasks@ =~= old(self)@.slots + Seq::new(
                    (tasks@.len() - old(self)@.slots.len()) as nat,
                    |i: int| None,
                ),
            decreases id + 1 - tasks.len(),
        {
            tasks.push(None);
        }
        assert(tasks@ =~= old(self)@.grown(task_handle.id));
        tasks[id] = Some(task_handle);
        self.tasks = tasks;
    }

    /// Removes the handle stored under `id` and gives it out for the
    /// teardown. An id under which nothing is stored, within the table or
    /// beyond it, changes nothing and gives nothing.
    pub fn delete(&mut self, id: u64) -> (removed: Option<TaskHandle>)
        ensures
            removed == old(self)@.handle(id),
            removed matches Some(handle) ==> handle.id == id,
            final(self)@ == old(self)@.deleted(id),
            final(self)@.well_formed(),
    {
        proof {
            use_type_invariant(&*self);
        }
        if id < self.tasks.len() as u64 {
            let mut tasks = Vec::new();
            std::mem::swap(&mut tasks, &mut self.tasks);
            let removed = tasks[id as usize].take();
            self.tasks = tasks;
            assert(final(self)@.slots =~= old(self)@.deleted(id).slots);
            removed
        } else {
            None
        }
    }
}

/// Deleting an id a second time leaves the registry as the first deletion
/// left it, and finds nothing to remove.
pub proof fn lemma_delete_is_idempotent(db: TaskDbView, id: u64)
    ensures
        db.deleted(id).handle(id) is None,
        db.deleted(id).deleted(id) == db.deleted(id),
{
}

/// Deleting an id under which nothing is stored (never stored, already
/// deleted, or beyond the table) changes nothing.
pub proof fn lemma_delete_of_absent_changes_nothing(db: TaskDbView, id: u64)
    requires
        !db.is_live(id),
    ensures
        db.handle(id) is None,
        db.deleted(id) == db,
{
}

/// Every operation keeps each stored handle in the slot of its own id.
pub proof fn lemma_operations_keep_well_formed(db: TaskDbView, handle: TaskHandle, id: u64)
    requires
        db.well_formed(),
    ensures
        TaskDbView::empty().well_formed(),
        db.registered().well_formed(),
        db.stored(handle).well_formed(),
        db.deleted(id).well_formed(),
{
}

/// The table never shrinks, and storing makes the stored id addressable.
pub proof fn lemma_table_never_shrinks(db: TaskDbView, handle: TaskHandle, id: u64)
    ensures
        db.registered().slots.len() == db.slots.len(),
        db.deleted(id).slots.len() == db.slots.len(),
        db.stored(handle).slots.len() >= db.slots.len(),
        db.stored(handle).slots.len() > handle.id,
        db.stored(handle).handle(handle.id) == Some(handle),
{
}

/// Storing or deleting under one id leaves what is stored under every other
/// id as it was.
pub proof fn lemma_other_ids_untouched(db: TaskDbView, handle: TaskHandle, id: u64, other: u64)
    ensures
        other != id ==> db.deleted(id).handle(other) == db.handle(other),
        other != handle.id ==> db.stored(handle).handle(other) == db.handle(other),
        db.registered().handle(other) == db.handle(other),
{
}

/// Ids are issued in strictly increasing order, and only registering moves
/// the counter: an id that was issued is never issued again.
pub proof fn lemma_ids_are_never_reused(db: TaskDbView, handle: TaskHandle, id: u64)
    ensures
        db.registered().next_id == db.next_id + 1,
        db.stored(handle).next_id == db.next_id,
        db.deleted(id).next_id == db.next_id,
{
}

} // verus!
