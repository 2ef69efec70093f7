//! The dispatcher: what the server decides when a connection arrives and
//! when a task asks for its teardown.

use vstd::prelude::*;
use crate::command::decode_message;
use crate::command::refusal;
use crate::command::Action;
use crate::command::Command;
use crate::command::DecodeError;
use crate::registry::TaskDb;
use crate::registry::TaskDbView;
use crate::task::Task;
use crate::task::TaskHandle;

verus! {

/// The address on which the server listens.
pub const BIND_ADDR: &'static str = "127.0.0.1:4086";

/// How many teardown requests may wait for the dispatcher at once.
pub const CANCEL_BACKLOG: usize = 15;

/// What the dispatcher does with a new connection.
pub enum Admission {
    /// Run the task on the command, and store the handle that comes of it.
    Launch(Task, Command),
    /// Write this text to the connection and close it.
    Refuse(String),
}

/// The dispatcher's state: the registry of the tasks it has launched.
pub struct McRemoteServer {
    tasks: TaskDb,
}

impl View for McRemoteServer {
    type V = TaskDbView;

    closed spec fn view(&self) -> TaskDbView {
        self.tasks@
    }
}

impl McRemoteServer {
    /// A dispatcher that has launched nothing.
    pub fn new() -> (server: Self)
        ensures
            server@ == TaskDbView::empty(),
    {
        McRemoteServer { tasks: TaskDb::new() }
    }

    /// The registry.
    pub fn tasks(&self) -> (tasks: &TaskDb)
        ensures
            tasks@ == self@,
    {
        &self.tasks
    }

    /// Decides on a new connection by what its first read delivered (`read`
    /// holds the bytes that arrived, none if the peer closed first). Where
    /// the first byte selects an action, a task is registered for it, bound
    /// to `ctrl_c`. Otherwise nothing is registered, and the peer is told
    /// why.
    pub fn handle_connection(
        &mut self,
        read: &[u8],
        ctrl_c: tokio::sync::mpsc::Sender<u64>,
    ) -> (admission: Admission)
        requires
            old(self)@.next_id < u64::MAX,
        ensures
            match admission {
                Admission::Launch(task, command) => {
                    &&& decode_message(read@) == Ok::<Action, DecodeError>(command@)
                    &&& task.id() == old(self)@.next_id
                    &&& task.notifier() == ctrl_c
                    &&& final(self)@ == old(self)@.registered()
                },
                Admission::Refuse(text) => {
                    &&& decode_message(read@) is Err
                    &&& text@ == refusal(read@)
                    &&& final(self)@ == old(self)@
                },
            },
    {
        match Command::try_from_reader(read) {
            Ok(command) => {
                let task = self.tasks.register(ctrl_c);
                Admission::Launch(task, command)
            },
            Err(text) => Admission::Refuse(text),
        }
    }

    /// Records the handle of a task that was launched.
    pub fn store(&mut self, task_handle: TaskHandle)
        requires
            task_handle.id < usize::MAX,
        ensures
            final(self)@ == old(self)@.stored(task_handle),
            final(self)@.well_formed(),
    {
        self.tasks.store(task_handle);
    }

    /// Takes up a teardown request: removes the handle of task `id` from the
    /// registry and gives it out, so that the task can be aborted and its
    /// child process killed. Where nothing is stored under `id`, nothing
    /// changes and there is nothing to tear down.
    pub fn cancel(&mut self, id: u64) -> (removed: Option<TaskHandle>)
        ensures
            removed == old(self)@.handle(id),
            removed matches Some(handle) ==> handle.id == id,
            final(self)@ == old(self)@.deleted(id),
            final(self)@.well_formed(),
    {
        self.tasks.delete(id)
    }
}

} // verus!
