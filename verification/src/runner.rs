//! How each action is carried out by the container tool: the command line,
//! whether the process is awaited or streamed, and which of its outputs the
//! client gets.

use vstd::prelude::*;
use crate::command::Action;

verus! {

/// The container tool that carries out every action.
pub const PROGRAM: &'static str = "docker";

/// The name under which the managed server runs.
pub const SERVER_NAME: &'static str = "lads-mc";

/// Which captured output of a finished process goes back to the client.
#[derive(Clone, Copy, Debug, PartialEq, Eq, Structural)]
pub enum Relay {
    Stdout,
    Stderr,
}

/// One call of the container tool.
#[derive(Debug, PartialEq, Eq)]
pub enum Invocation {
    /// Run to completion and capture the output; `relay` is the part to send
    /// back.
    Capture { args: Vec<&'static str>, relay: Relay },
    /// Spawn, and stream the standard output line by line.
    Stream { args: Vec<&'static str> },
}

/// An invocation as a mathematical value.
pub enum InvocationView {
    Capture { args: Seq<Seq<char>>, relay: Relay },
    Stream { args: Seq<Seq<char>> },
}

impl View for Invocation {
    type V = InvocationView;

    open spec fn view(&self) -> InvocationView {
        match *self {
            Invocation::Capture { args, relay } => InvocationView::Capture {
                args: args.deep_view(),
                relay,
            },
            Invocation::Stream { args } => InvocationView::Stream { args: args.deep_view() },
        }
    }
}

/// The arguments that the container tool gets for an action.
pub open spec fn arguments(action: Action) -> Seq<Seq<char>> {
    match action {
        Action::Logs(args) => if args.follow {
            seq!["logs"@, SERVER_NAME@, "-f"@]
        } else {
            seq!["logs"@, SERVER_NAME@]
        },
        Action::Start => seq!["compose"@, "up"@, SERVER_NAME@, "-d"@],
        Action::Stop => seq!["compose"@, "stop"@, SERVER_NAME@],
        Action::Restart => seq!["compose"@, "restart"@, SERVER_NAME@],
    }
}

/// The output that answers an action: the logs come on standard output, the
/// progress of the other actions on standard error.
pub open spec fn relayed(action: Action) -> Relay {
    match action {
        Action::Logs(_) => Relay::Stdout,
        _ => Relay::Stderr,
    }
}

/// How an action is carried out: following the logs streams a child process,
/// every other action runs one to completion.
pub open spec fn invocation_of(action: Action) -> InvocationView {
    match action {
        Action::Logs(args) if args.follow => InvocationView::Stream { args: arguments(action) },
        _ => InvocationView::Capture { args: arguments(action), relay: relayed(action) },
    }
}

impl Invocation {
    /// The call of the container tool that carries out `action`.
    pub fn of(action: &Action) -> (invocation: Invocation)
        ensures
            invocation@ == invocation_of(*action),
    {
        match action {
            Action::Logs(args) => {
                if args.follow {
                    let args = vec!["logs", SERVER_NAME, "-f"];
                    assert(args.deep_view() =~= arguments(*action));
                    Invocation::Stream { args }
                } else {
                    let args = vec!["logs", SERVER_NAME];
                    assert(args.deep_view() =~= arguments(*action));
                    Invocation::Capture { args, relay: Relay::Stdout }
                }
            },
            Action::Start => {
                let args = vec!["compose", "up", SERVER_NAME, "-d"];
                assert(args.deep_view() =~= arguments(*action));
                Invocation::Capture { args, relay: Relay::Stderr }
            },
            Action::Stop => {
                let args = vec!["compose", "stop", SERVER_NAME];
                assert(args.deep_view() =~= arguments(*action));
                Invocation::Capture { args, relay: Relay::Stderr }
            },
            Action::Restart => {
                let args = vec!["compose", "restart", SERVER_NAME];
                assert(args.deep_view() =~= arguments(*action));
                Invocation::Capture { args, relay: Relay::Stderr }
            },
        }
    }
}

} // verus!
