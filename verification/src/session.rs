//! The course of one task: what it asks of its driver next, given what the
//! driver reports. The driver performs the I/O; every decision is taken here.

use vstd::prelude::*;
use crate::command::Action;
use crate::command::Command;
use crate::command::STOP_CODE;
use crate::runner::invocation_of;
use crate::runner::relayed;
use crate::runner::Invocation;
use crate::runner::InvocationView;

verus! {

/// Where a task stands in its life.
#[derive(Clone, Copy, Debug, PartialEq, Eq, Structural)]
pub enum TaskState {
    /// Created; the command has not been taken up.
    Dispatching,
    /// At work on the command.
    Running,
    /// The work came to its natural end.
    Completed,
    /// The client asked for the end of a follow-mode session.
    Cancelled,
    /// The process or the connection failed.
    Failed,
}

/// What a session waits for.
#[derive(Clone, Copy, Debug, PartialEq, Eq, Structural)]
pub enum Phase {
    /// Waits to begin.
    Dispatching,
    /// Waits for the process to run to completion.
    Capturing,
    /// Waits for the captured output to be written to the client.
    Replying,
    /// Waits for the child process to be spawned.
    Spawning,
    /// Waits for the child process to be handed to the registry.
    Delivering,
    /// Waits for a line of the child's output or a byte of the client,
    /// whichever comes first.
    Streaming,
    /// Waits for a line to be written to the client.
    Forwarding,
    /// Ended: the work is done.
    Completed,
    /// Ended: the client cancelled.
    Cancelled,
    /// Ended: something failed.
    Failed,
}

/// What the driver reports to a session.
#[derive(Debug, PartialEq, Eq)]
pub enum Event {
    /// The task was started.
    Begin,
    /// The process ran to completion; these are its captured outputs.
    Captured { stdout: Vec<u8>, stderr: Vec<u8> },
    /// The child process runs and its standard output can be read.
    Spawned,
    /// The child process was handed to the registry.
    Delivered,
    /// The process could not be started; the text says why.
    RunnerFailed(String),
    /// The child's output gave these bytes: a line, or nothing at its end.
    Line(Vec<u8>),
    /// A read from the client returned `count` bytes; `byte` is the first.
    ClientByte { count: usize, byte: u8 },
    /// The client took `0` bytes of the line that was forwarded, or more.
    Written(usize),
    /// The client took the whole reply.
    Replied,
    /// Reading or writing failed; the text says how.
    IoFailed(String),
}

/// What a session asks of its driver.
#[derive(Debug, PartialEq, Eq)]
pub enum Directive {
    /// Call the container tool, and report `Captured`, `Spawned` or
    /// `RunnerFailed`.
    Run(Invocation),
    /// Hand the child process to the registry, and report `Delivered`.
    Deliver,
    /// Wait for the next line of the child and for a byte of the client at
    /// once, and report `Line`, `ClientByte` or `IoFailed`.
    Poll,
    /// Write these bytes to the client in one write, and report `Written`
    /// or `IoFailed`.
    Forward(Vec<u8>),
    /// Write all of these bytes to the client, and report `Replied` or
    /// `IoFailed`.
    Reply(Vec<u8>),
    /// Tell the registry to tear down the task of this id, then close.
    Notify(u64),
    /// Try to tell the client what went wrong, then close.
    Report(String),
    /// Close the connection.
    Close,
}

/// An event as a mathematical value.
pub enum EventView {
    Begin,
    Captured { stdout: Seq<u8>, stderr: Seq<u8> },
    Spawned,
    Delivered,
    RunnerFailed(Seq<char>),
    Line(Seq<u8>),
    ClientByte { count: nat, byte: u8 },
    Written(nat),
    Replied,
    IoFailed(Seq<char>),
}

/// A directive as a mathematical value.
pub enum DirectiveView {
    Run(InvocationView),
    Deliver,
    Poll,
    Forward(Seq<u8>),
    Reply(Seq<u8>),
    Notify(u64),
    Report(Seq<char>),
    Close,
}

impl View for Event {
    type V = EventView;

    open spec fn view(&self) -> EventView {
        match *self {
            Event::Begin => EventView::Begin,
            Event::Captured { stdout, stderr } => EventView::Captured {
                stdout: stdout@,
                stderr: stderr@,
            },
            Event::Spawned => EventView::Spawned,
            Event::Delivered => EventView::Delivered,
            Event::RunnerFailed(text) => EventView::RunnerFailed(text@),
            Event::Line(bytes) => EventView::Line(bytes@),
            Event::ClientByte { count, byte } => EventView::ClientByte { count: count as nat, byte },
            Event::Written(count) => EventView::Written(count as nat),
            Event::Replied => EventView::Replied,
            Event::IoFailed(text) => EventView::IoFailed(text@),
        }
    }
}

impl View for Directive {
    type V = DirectiveView;

    open spec fn view(&self) -> DirectiveView {
        match *self {
            Directive::Run(invocation) => DirectiveView::Run(invocation@),
            Directive::Deliver => DirectiveView::Deliver,
            Directive::Poll => DirectiveView::Poll,
            Directive::Forward(bytes) => DirectiveView::Forward(bytes@),
            Directive::Reply(bytes) => DirectiveView::Reply(bytes@),
            Directive::Notify(id) => DirectiveView::Notify(id),
            Directive::Report(text) => DirectiveView::Report(text@),
            Directive::Close => DirectiveView::Close,
        }
    }
}

impl Phase {
    /// The state of the task's life that a phase belongs to.
    pub open spec fn state(self) -> TaskState {
        match self {
            Phase::Dispatching => TaskState::Dispatching,
            Phase::Completed => TaskState::Completed,
            Phase::Cancelled => TaskState::Cancelled,
            Phase::Failed => TaskState::Failed,
            _ => TaskState::Running,
        }
    }

    /// Whether the task has ended.
    pub open spec fn is_terminal(self) -> bool {
        self is Completed || self is Cancelled || self is Failed
    }

    /// Whether only a session that follows the logs passes through this phase.
    pub open spec fn is_streaming(self) -> bool {
        self is Spawning || self is Delivering || self is Streaming || self is Forwarding
            || self is Cancelled
    }

    /// Whether only a session that runs a process to completion passes
    /// through this phase.
    pub open spec fn is_one_shot(self) -> bool {
        self is Capturing || self is Replying
    }
}

/// Whether an action follows the logs.
pub open spec fn follows(action: Action) -> bool {
    action matches Action::Logs(args) && args.follow
}

/// A session as a mathematical value.
pub struct SessionView {
    /// The id of the task.
    pub id: u64,
    /// What the client asked for.
    pub action: Action,
    /// What the session waits for.
    pub phase: Phase,
}

impl SessionView {
    /// The phase fits the action: only a session that follows the logs
    /// streams, and only one that does not runs a process to completion.
    pub open spec fn well_formed(self) -> bool {
        &&& self.phase.is_streaming() ==> follows(self.action)
        &&& self.phase.is_one_shot() ==> !follows(self.action)
    }

    /// The session as it is created.
    pub open spec fn fresh(id: u64, action: Action) -> SessionView {
        SessionView { id, action, phase: Phase::Dispatching }
    }

    /// The session in another phase.
    pub open spec fn at(self, phase: Phase) -> SessionView {
        SessionView { id: self.id, action: self.action, phase }
    }

    /// The phase that an event leads to.
    pub open spec fn next_phase(self, event: EventView) -> Phase {
        match (self.phase, event) {
            (Phase::Dispatching, EventView::Begin) => if follows(self.action) {
                Phase::Spawning
            } else {
                Phase::Capturing
            },
            (Phase::Capturing, EventView::Captured { .. }) => Phase::Replying,
            (Phase::Replying, EventView::Replied) => Phase::Completed,
            (Phase::Spawning, EventView::Spawned) => Phase::Delivering,
            (Phase::Delivering, EventView::Delivered) => Phase::Streaming,
            (Phase::Streaming, EventView::Line(_)) => Phase::Forwarding,
            (Phase::Streaming, EventView::ClientByte { count, byte }) => if count == 1 && byte
                == STOP_CODE {
                Phase::Cancelled
            } else {
                Phase::Streaming
            },
            (Phase::Forwarding, EventView::Written(count)) => if count == 0 {
                Phase::Completed
            } else {
                Phase::Streaming
            },
            (Phase::Completed, _) => Phase::Completed,
            (Phase::Cancelled, _) => Phase::Cancelled,
            _ => Phase::Failed,
        }
    }

    /// What an event makes the session ask of its driver.
    pub open spec fn directive(self, event: EventView) -> DirectiveView {
        match (self.phase, event) {
            (Phase::Dispatching, EventView::Begin) => DirectiveView::Run(invocation_of(self.action)),
            (Phase::Capturing, EventView::Captured { stdout, stderr }) => DirectiveView::Reply(
                if relayed(self.action) is Stdout {
                    stdout
                } else {
                    stderr
                },
            ),
            (Phase::Capturing, EventView::RunnerFailed(text)) => DirectiveView::Report(text),
            (Phase::Replying, EventView::IoFailed(text)) => DirectiveView::Report(text),
            (Phase::Spawning, EventView::Spawned) => DirectiveView::Deliver,
            (Phase::Spawning, EventView::RunnerFailed(text)) => DirectiveView::Report(text),
            (Phase::Delivering, EventView::Delivered) => DirectiveView::Poll,
            (Phase::Streaming, EventView::Line(bytes)) => DirectiveView::Forward(bytes),
            (Phase::Streaming, EventView::ClientByte { count, byte }) => if count == 1 && byte
                == STOP_CODE {
                DirectiveView::Notify(self.id)
            } else {
                DirectiveView::Poll
            },
            (Phase::Forwarding, EventView::Written(count)) => if count == 0 {
                DirectiveView::Close
            } else {
                DirectiveView::Poll
            },
            _ => DirectiveView::Close,
        }
    }

    /// The session after an event.
    pub open spec fn after(self, event: EventView) -> SessionView {
        self.at(self.next_phase(event))
    }

    /// The session after a sequence of events.
    pub open spec fn run(self, events: Seq<EventView>) -> SessionView
        decreases events.len(),
    {
        if events.len() == 0 {
            self
        } else {
            self.after(events[0]).run(events.skip(1))
        }
    }

    /// How often a sequence of events makes the session hand a child process
    /// to the registry.
    pub open spec fn deliveries(self, events: Seq<EventView>) -> nat
        decreases events.len(),
    {
        if events.len() == 0 {
            0
        } else {
            let here: nat = if self.directive(events[0]) is Deliver {
                1
            } else {
                0
            };
            here + self.after(events[0]).deliveries(events.skip(1))
        }
    }

    /// How often a sequence of events makes the session ask the registry for
    /// its teardown.
    pub open spec fn notifications(self, events: Seq<EventView>) -> nat
        decreases events.len(),
    {
        if events.len() == 0 {
            0
        } else {
            let here: nat = if self.directive(events[0]) is Notify {
                1
            } else {
                0
            };
            here + self.after(events[0]).notifications(events.skip(1))
        }
    }
}

/// The state of one task: its id, its command, and what it waits for.
#[derive(Clone, Copy, Debug, PartialEq, Eq)]
pub struct Session {
    id: u64,
    action: Action,
    phase: Phase,
}

impl View for Session {
    type V = SessionView;

    closed spec fn view(&self) -> SessionView {
        SessionView { id: self.id, action: self.action, phase: self.phase }
    }
}

impl Session {
    #[verifier::type_invariant]
    spec fn phase_fits_action(self) -> bool {
        self@.well_formed()
    }

    /// The session of task `id` for `command`, not yet begun.
    pub fn new(id: u64, command: Command) -> (session: Session)
        ensures
            session@ == SessionView::fresh(id, command@),
    {
        Session { id, action: *command.get(), phase: Phase::Dispatching }
    }

    /// The id of the task.
    pub fn id(&self) -> (id: u64)
        ensures
            id == self@.id,
    {
        self.id
    }

    /// What the client asked for.
    pub fn action(&self) -> (action: Action)
        ensures
            action == self@.action,
    {
        self.action
    }

    /// What the session waits for.
    pub fn phase(&self) -> (phase: Phase)
        ensures
            phase == self@.phase,
            self@.well_formed(),
    {
        proof {
            use_type_invariant(self);
        }
        self.phase
    }

    /// Where the task stands in its life.
    pub fn state(&self) -> (state: TaskState)
        ensures
            state == self@.phase.state(),
    {
        match self.phase {
            Phase::Dispatching => TaskState::Dispatching,
            Phase::Completed => TaskState::Completed,
            Phase::Cancelled => TaskState::Cancelled,
            Phase::Failed => TaskState::Failed,
            _ => TaskState::Running,
        }
    }

    /// Takes up what the driver reports, and says what the driver does next.
    ///
    /// An event that does not answer what the session waits for ends it as
    /// failed; a session that has ended stays as it is and asks for nothing
    /// but to close.
    pub fn step(&mut self, event: Event) -> (directive: Directive)
        ensures
            final(self)@ == old(self)@.after(event@),
            directive@ == old(self)@.directive(event@),
            final(self)@.well_formed(),
    {
        proof {
            use_type_invariant(&*self);
        }
        let follow = match self.action {
            Action::Logs(args) => args.follow,
            _ => false,
        };
        let (phase, directive) = match (self.phase, event) {
            (Phase::Dispatching, Event::Begin) => (
                if follow {
                    Phase::Spawning
                } else {
                    Phase::Capturing
                },
                Directive::Run(Invocation::of(&self.action)),
            ),
            (Phase::Capturing, Event::Captured { stdout, stderr }) => (
                Phase::Replying,
                match self.action {
                    Action::Logs(_) => Directive::Reply(stdout),
                    _ => Directive::Reply(stderr),
                },
            ),
            (Phase::Capturing, Event::RunnerFailed(text)) => (Phase::Failed, Directive::Report(text)),
            (Phase::Replying, Event::Replied) => (Phase::Completed, Directive::Close),
            (Phase::Replying, Event::IoFailed(text)) => (Phase::Failed, Directive::Report(text)),
            (Phase::Spawning, Event::Spawned) => (Phase::Delivering, Directive::Deliver),
            (Phase::Spawning, Event::RunnerFailed(text)) => (Phase::Failed, Directive::Report(text)),
            (Phase::Delivering, Event::Delivered) => (Phase::Streaming, Directive::Poll),
            (Phase::Streaming, Event::Line(bytes)) => (Phase::Forwarding, Directive::Forward(bytes)),
            (Phase::Streaming, Event::ClientByte { count, byte }) => {
                if count == 1 && byte == STOP_CODE {
                    (Phase::Cancelled, Directive::Notify(self.id))
                } else {
                    (Phase::Streaming, Directive::Poll)
                }
            },
            (Phase::Forwarding, Event::Written(count)) => {
                if count == 0 {
                    (Phase::Completed, Directive::Close)
                } else {
                    (Phase::Streaming, Directive::Poll)
                }
            },
            (Phase::Completed, _) => (Phase::Completed, Directive::Close),
            (Phase::Cancelled, _) => (Phase::Cancelled, Directive::Close),
            _ => (Phase::Failed, Directive::Close),
        };
        self.phase = phase;
        directive
    }
}

/// An event changes neither the id nor the action of a session, and leaves
/// the phase fitting the action.
pub proof fn lemma_step_keeps_identity(session: SessionView, event: EventView)
    requires
        session.well_formed(),
    ensures
        session.after(event).id == session.id,
        session.after(event).action == session.action,
        session.after(event).well_formed(),
{
}

/// A session that has ended stays as it is, whatever is reported to it, and
/// asks for nothing but to close.
pub proof fn lemma_ended_sessions_stay_ended(session: SessionView, event: EventView)
    requires
        session.phase.is_terminal(),
    ensures
        session.after(event) == session,
        session.directive(event) == DirectiveView::Close,
{
}

/// A session is cancelled by one thing only: a single byte from the client,
/// equal to the stop code, while it polls. It then names its own id to the
/// registry, and it names an id at no other time.
pub proof fn lemma_cancelled_by_stop_code_only(session: SessionView, event: EventView)
    ensures
        (session.after(event).phase is Cancelled && !(session.phase is Cancelled)) <==> (
        session.phase is Streaming && event == (EventView::ClientByte {
            count: 1,
            byte: STOP_CODE,
        })),
        session.directive(event) is Notify <==> (session.after(event).phase is Cancelled && !(
        session.phase is Cancelled)),
        session.directive(event) is Notify ==> session.directive(event) == DirectiveView::Notify(
            session.id,
        ),
{
}

/// What goes to the client is what came in: a line of the child is forwarded
/// as it was read, the captured output of the action's stream is the reply,
/// and an error is reported in the words it came with.
pub proof fn lemma_payloads_pass_unchanged(session: SessionView, event: EventView)
    ensures
        session.directive(event) matches DirectiveView::Forward(bytes) ==> event
            == EventView::Line(bytes),
        session.directive(event) matches DirectiveView::Reply(bytes) ==> (event matches EventView::Captured {
            stdout,
            stderr,
        } && bytes == if relayed(session.action) is Stdout {
            stdout
        } else {
            stderr
        }),
        session.directive(event) matches DirectiveView::Report(text) ==> (event
            == EventView::RunnerFailed(text) || event == EventView::IoFailed(text)),
{
}

/// From a phase past the spawning, no event sequence hands over a child, and
/// from a phase that does not stream, none leads into the streaming phases.
proof fn lemma_no_delivery_later(session: SessionView, events: Seq<EventView>)
    requires
        !(session.phase is Dispatching),
        !(session.phase is Spawning),
    ensures
        session.deliveries(events) == 0,
        !session.phase.is_streaming() ==> !session.run(events).phase.is_streaming(),
    decreases events.len(),
{
    if events.len() > 0 {
        lemma_no_delivery_later(session.after(events[0]), events.skip(1));
    }
}

/// Once a session has ended, or while it runs a process to completion, no
/// event sequence makes it ask for its teardown.
proof fn lemma_no_notification_later(session: SessionView, events: Seq<EventView>)
    requires
        session.phase.is_terminal() || session.phase.is_one_shot(),
    ensures
        session.notifications(events) == 0,
    decreases events.len(),
{
    if events.len() > 0 {
        lemma_no_notification_later(session.after(events[0]), events.skip(1));
    }
}

/// Whatever is reported to a session, it asks for its teardown at most once.
proof fn lemma_notifies_at_most_once(session: SessionView, events: Seq<EventView>)
    ensures
        session.notifications(events) <= 1,
    decreases events.len(),
{
    if events.len() > 0 {
        let next = session.after(events[0]);
        if session.directive(events[0]) is Notify {
            lemma_no_notification_later(next, events.skip(1));
        } else {
            lemma_notifies_at_most_once(next, events.skip(1));
        }
    }
}

/// Before the spawning is over, an event sequence hands over a child at most
/// once, and exactly once if it leads into the streaming phases.
proof fn lemma_delivery_from_start(session: SessionView, events: Seq<EventView>)
    requires
        session.phase is Dispatching || session.phase is Spawning,
    ensures
        session.deliveries(events) <= 1,
        session.run(events).phase.is_streaming() && !(session.run(events).phase is Spawning)
            ==> session.deliveries(events) == 1,
    decreases events.len(),
{
    if events.len() > 0 {
        let next = session.after(events[0]);
        if next.phase is Dispatching || next.phase is Spawning {
            lemma_delivery_from_start(next, events.skip(1));
        } else {
            lemma_no_delivery_later(next, events.skip(1));
        }
    }
}

/// A task hands its child process to the registry at most once, whatever
/// happens to it: exactly once if it came to stream, and never if its action
/// does not follow the logs. It asks for its own teardown at most once.
pub proof fn lemma_child_is_delivered_once(id: u64, action: Action, events: Seq<EventView>)
    ensures
        SessionView::fresh(id, action).deliveries(events) <= 1,
        SessionView::fresh(id, action).notifications(events) <= 1,
        ({
            let end = SessionView::fresh(id, action).run(events).phase;
            end is Delivering || end is Streaming || end is Forwarding || end is Cancelled
        }) ==> SessionView::fresh(id, action).deliveries(events) == 1,
        !follows(action) ==> SessionView::fresh(id, action).deliveries(events) == 0
            && SessionView::fresh(id, action).notifications(events) == 0,
{
    let fresh = SessionView::fresh(id, action);
    lemma_delivery_from_start(fresh, events);
    lemma_notifies_at_most_once(fresh, events);
    if !follows(action) {
        lemma_one_shot_never_streams(fresh, events);
    }
}

/// A session whose action does not follow the logs never hands over a child
/// and never asks for its teardown.
proof fn lemma_one_shot_never_streams(session: SessionView, events: Seq<EventView>)
    requires
        session.well_formed(),
        !follows(session.action),
    ensures
        session.deliveries(events) == 0,
        session.notifications(events) == 0,
    decreases events.len(),
{
    if events.len() > 0 {
        lemma_one_shot_never_streams(session.after(events[0]), events.skip(1));
    }
}

} // verus!
