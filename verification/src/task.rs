//! A task: the unit of work bound to one accepted connection, and the handle
//! by which the registry can tear it down.

use vstd::prelude::*;
use crate::command::Command;
use crate::session::Session;
use crate::session::SessionView;

verus! {

/// `tokio::task::JoinHandle`: the handle to a spawned computation. Nothing is
/// claimed of it; the library only carries it.
#[verifier::external_type_specification]
#[verifier::external_body]
#[verifier::reject_recursive_types(T)]
pub struct ExJoinHandle<T>(tokio::task::JoinHandle<T>);

/// `tokio::task::JoinError`: what awaiting a `JoinHandle` may yield. Declared
/// because `JoinHandle` names it; the library never holds one.
#[verifier::external_type_specification]
#[verifier::external_body]
pub struct ExJoinError(tokio::task::JoinError);

/// `tokio::sync::oneshot::Receiver`: the receiving end of a single-use channel.
/// Nothing is claimed of it; the library only carries it.
#[verifier::external_type_specification]
#[verifier::external_body]
#[verifier::reject_recursive_types(T)]
pub struct ExOneshotReceiver<T>(tokio::sync::oneshot::Receiver<T>);

/// `tokio::sync::oneshot::error::RecvError`: what awaiting a `Receiver` may
/// yield. Declared because `Receiver` names it; the library never holds one.
#[verifier::external_type_specification]
#[verifier::external_body]
pub struct ExRecvError(tokio::sync::oneshot::error::RecvError);

/// `tokio::sync::mpsc::Sender`: the sending end of the channel on which a task
/// asks for its own removal. Nothing is claimed of it; the library only
/// carries it.
#[verifier::external_type_specification]
#[verifier::external_body]
#[verifier::reject_recursive_types(T)]
pub struct ExSender<T>(tokio::sync::mpsc::Sender<T>);

/// `tokio::process::Child`: a spawned child process. Nothing is claimed of it.
#[verifier::external_type_specification]
#[verifier::external_body]
pub struct ExChild(tokio::process::Child);

/// `std::io::Error`: the error of an I/O operation. Nothing is claimed of it.
#[verifier::external_type_specification]
#[verifier::external_body]
pub struct ExIoError(std::io::Error);

/// What the registry keeps of a running task.
pub struct TaskHandle {
    /// The id under which the task was registered.
    pub id: u64,
    /// The computation that drives the connection.
    pub handle: tokio::task::JoinHandle<Result<(), std::io::Error>>,
    /// Delivers the child process once, if the task spawns one.
    pub maybe_proc: tokio::sync::oneshot::Receiver<tokio::process::Child>,
}

/// A registered task that has not begun to run.
pub struct Task {
    id: u64,
    ctrl_c: tokio::sync::mpsc::Sender<u64>,
}

impl Task {
    /// The id that the registry issued for the task.
    pub closed spec fn spec_id(&self) -> u64 {
        self.id
    }

    /// The channel on which the task asks for its own removal.
    pub closed spec fn notifier(&self) -> tokio::sync::mpsc::Sender<u64> {
        self.ctrl_c
    }

    /// The task of `id`, bound to the channel for teardown requests.
    pub fn new(id: u64, ctrl_c: tokio::sync::mpsc::Sender<u64>) -> (task: Self)
        ensures
            task.spec_id() == id,
            task.notifier() == ctrl_c,
    {
        Task { id, ctrl_c }
    }

    /// The id that the registry issued for the task.
    #[verifier::when_used_as_spec(spec_id)]
    pub fn id(&self) -> (id: u64)
        ensures
            id == self.spec_id(),
    {
        self.id
    }

    /// Takes up `command`: gives the session that decides the task's course,
    /// not yet begun, and the channel on which its driver asks for the
    /// teardown. The driver is spawned with both, and what the spawn returns
    /// goes into the `TaskHandle` of this id.
    pub fn run(self, command: Command) -> (started: (Session, tokio::sync::mpsc::Sender<u64>))
        ensures
            started.0@ == SessionView::fresh(self.id(), command@),
            started.1 == self.notifier(),
    {
        (Session::new(self.id, command), self.ctrl_c)
    }
}

} // verus!
