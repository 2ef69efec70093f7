//! The client: what it sends, how it takes the reply, and when it cancels.

use vstd::prelude::*;
use crate::command::encode;
use crate::command::Action;
use crate::command::Command;
use crate::command::STOP_CODE;
use crate::session::follows;

verus! {

/// The address at which the client looks for the server.
pub const CONN_ADDR: &'static str = "127.0.0.1:4086";

/// The capacity that the client's receive buffer starts with.
pub const DEFAULT_CAPACITY: usize = 1024;

/// The seconds that the client waits before it reads again, after a read
/// that would have blocked.
pub const RETRY_SECS: u64 = 5;

/// What the client tells of a read that failed.
pub const RECV_FAILURE: &'static str = "Not good :D";

/// Where the client stands in its exchange with the server.
#[derive(Clone, Copy, Debug, PartialEq, Eq, Structural)]
pub enum ClientPhase {
    /// Not connected yet.
    Connecting,
    /// The command byte is on its way.
    Sending,
    /// Prints the lines of a followed log until the user interrupts.
    Streaming,
    /// Reads the whole reply of a one-shot command.
    Reading,
    /// The stop code is on its way.
    Cancelling,
    /// The exchange is over.
    Done,
    /// The exchange broke off.
    Failed,
}

/// What the client's driver reports.
#[derive(Clone, Copy, Debug, PartialEq, Eq, Structural)]
pub enum ClientEvent {
    /// The connection stands.
    Connected,
    /// The bytes that were to be sent are sent.
    Sent,
    /// The user interrupted.
    Interrupted,
    /// The server closed the connection; the whole reply is read.
    ReplyRead,
    /// Connecting, reading, writing or waiting for the interrupt failed.
    IoFailed,
}

/// What the client asks of its driver.
#[derive(Debug, PartialEq, Eq)]
pub enum ClientDirective {
    /// Send these bytes, and report `Sent`.
    Send(Vec<u8>),
    /// Print each line as it arrives, and report `Interrupted` when the user
    /// interrupts.
    Stream,
    /// Read until the server closes, print what was read, and report
    /// `ReplyRead`.
    ReadAll,
    /// Stop printing, send these bytes, and report `Sent`.
    Cancel(Vec<u8>),
    /// Return with success.
    Finish,
    /// Return with the error that was met.
    Fail,
}

/// A client directive as a mathematical value.
pub enum ClientDirectiveView {
    Send(Seq<u8>),
    Stream,
    ReadAll,
    Cancel(Seq<u8>),
    Finish,
    Fail,
}

impl View for ClientDirective {
    type V = ClientDirectiveView;

    open spec fn view(&self) -> ClientDirectiveView {
        match *self {
            ClientDirective::Send(bytes) => ClientDirectiveView::Send(bytes@),
            ClientDirective::Stream => ClientDirectiveView::Stream,
            ClientDirective::ReadAll => ClientDirectiveView::ReadAll,
            ClientDirective::Cancel(bytes) => ClientDirectiveView::Cancel(bytes@),
            ClientDirective::Finish => ClientDirectiveView::Finish,
            ClientDirective::Fail => ClientDirectiveView::Fail,
        }
    }
}

/// What one read of a line from the server came to.
#[derive(Clone, Copy, Debug, PartialEq, Eq, Structural)]
pub enum LineRead {
    /// The read returned this many bytes; none means the server closed.
    Read(usize),
    /// Nothing was there to read yet.
    WouldBlock,
    /// The read failed otherwise.
    Failed,
}

/// What the client does after one read of a line.
#[derive(Clone, Copy, Debug, PartialEq, Eq, Structural)]
pub enum Receipt {
    /// Stop receiving: the server closed.
    Done,
    /// Print the line and read again.
    Print,
    /// Wait this many seconds and read again.
    Retry(u64),
    /// Give up, with the kind of the error that the read met and the text of
    /// `RECV_FAILURE`.
    Fail,
}

/// A client as a mathematical value.
pub struct ClientView {
    /// What the user asked for.
    pub action: Action,
    /// Where the exchange stands.
    pub phase: ClientPhase,
}

impl ClientView {
    /// Where the exchange stands after an event.
    pub open spec fn next_phase(self, event: ClientEvent) -> ClientPhase {
        match (self.phase, event) {
            (ClientPhase::Connecting, ClientEvent::Connected) => ClientPhase::Sending,
            (ClientPhase::Sending, ClientEvent::Sent) => if follows(self.action) {
                ClientPhase::Streaming
            } else {
                ClientPhase::Reading
            },
            (ClientPhase::Streaming, ClientEvent::Interrupted) => ClientPhase::Cancelling,
            (ClientPhase::Cancelling, ClientEvent::Sent) => ClientPhase::Done,
            (ClientPhase::Reading, ClientEvent::ReplyRead) => ClientPhase::Done,
            (ClientPhase::Done, _) => ClientPhase::Done,
            _ => ClientPhase::Failed,
        }
    }

    /// What an event makes the client ask of its driver.
    pub open spec fn directive(self, event: ClientEvent) -> ClientDirectiveView {
        match (self.phase, event) {
            (ClientPhase::Connecting, ClientEvent::Connected) => ClientDirectiveView::Send(
                seq![encode(self.action)],
            ),
            (ClientPhase::Sending, ClientEvent::Sent) => if follows(self.action) {
                ClientDirectiveView::Stream
            } else {
                ClientDirectiveView::ReadAll
            },
            (ClientPhase::Streaming, ClientEvent::Interrupted) => ClientDirectiveView::Cancel(
                seq![STOP_CODE],
            ),
            (ClientPhase::Cancelling, ClientEvent::Sent) => ClientDirectiveView::Finish,
            (ClientPhase::Reading, ClientEvent::ReplyRead) => ClientDirectiveView::Finish,
            (ClientPhase::Done, _) => ClientDirectiveView::Finish,
            _ => ClientDirectiveView::Fail,
        }
    }

    /// The client after an event.
    pub open spec fn after(self, event: ClientEvent) -> ClientView {
        ClientView { action: self.action, phase: self.next_phase(event) }
    }
}

/// What the client does after one read of a line.
pub open spec fn receipt(read: LineRead) -> Receipt {
    match read {
        LineRead::Read(count) => if count == 0 {
            Receipt::Done
        } else {
            Receipt::Print
        },
        LineRead::WouldBlock => Receipt::Retry(RETRY_SECS),
        LineRead::Failed => Receipt::Fail,
    }
}

/// The client's side of one exchange.
pub struct McRemoteClient {
    action: Command,
    phase: ClientPhase,
}

impl View for McRemoteClient {
    type V = ClientView;

    closed spec fn view(&self) -> ClientView {
        ClientView { action: self.action@, phase: self.phase }
    }
}

impl McRemoteClient {
    /// The client for the subcommand that the command line was parsed into,
    /// not yet connected.
    pub fn parse(commands: Action) -> (client: Self)
        ensures
            client@ == (ClientView { action: commands, phase: ClientPhase::Connecting }),
    {
        McRemoteClient { action: commands.into_command(), phase: ClientPhase::Connecting }
    }

    /// The command that the client sends.
    pub fn command(&self) -> (command: &Command)
        ensures
            command@ == self@.action,
    {
        &self.action
    }

    /// Where the exchange stands.
    pub fn phase(&self) -> (phase: ClientPhase)
        ensures
            phase == self@.phase,
    {
        self.phase
    }

    /// Takes up what the driver reports on the connection, and says what the
    /// driver does next: once connected the command byte is sent; a followed
    /// log is then printed until the user interrupts, upon which the stop
    /// code is sent; the reply to any other command is read to its end. A
    /// failure, or an event out of turn, ends the exchange as failed.
    pub fn connect(&mut self, event: ClientEvent) -> (directive: ClientDirective)
        ensures
            final(self)@ == old(self)@.after(event),
            directive@ == old(self)@.directive(event),
    {
        let follow = match self.action.get() {
            Action::Logs(args) => args.follow,
            _ => false,
        };
        let (phase, directive) = match (self.phase, event) {
            (ClientPhase::Connecting, ClientEvent::Connected) => {
                let mut bytes = Vec::new();
                self.action.write_self(&mut bytes);
                assert(bytes@ =~= seq![encode(self.action@)]);
                (ClientPhase::Sending, ClientDirective::Send(bytes))
            },
            (ClientPhase::Sending, ClientEvent::Sent) => {
                if follow {
                    (ClientPhase::Streaming, ClientDirective::Stream)
                } else {
                    (ClientPhase::Reading, ClientDirective::ReadAll)
                }
            },
            (ClientPhase::Streaming, ClientEvent::Interrupted) => {
                let mut bytes = Vec::new();
                self.action.ctrl_c(&mut bytes);
                assert(bytes@ =~= seq![STOP_CODE]);
                (ClientPhase::Cancelling, ClientDirective::Cancel(bytes))
            },
            (ClientPhase::Cancelling, ClientEvent::Sent) => (
                ClientPhase::Done,
                ClientDirective::Finish,
            ),
            (ClientPhase::Reading, ClientEvent::ReplyRead) => (
                ClientPhase::Done,
                ClientDirective::Finish,
            ),
            (ClientPhase::Done, _) => (ClientPhase::Done, ClientDirective::Finish),
            _ => (ClientPhase::Failed, ClientDirective::Fail),
        };
        self.phase = phase;
        directive
    }

    /// Decides what follows one read of a line while a log is followed: the
    /// end of the stream stops the receiving, a line is printed, a read that
    /// would have blocked is tried again after `RETRY_SECS`, and any other
    /// failure is given up on.
    pub fn recv_data(read: LineRead) -> (receipt: Receipt)
        ensures
            receipt == self::receipt(read),
    {
        match read {
            LineRead::Read(count) => if count == 0 {
                Receipt::Done
            } else {
                Receipt::Print
            },
            LineRead::WouldBlock => Receipt::Retry(RETRY_SECS),
            LineRead::Failed => Receipt::Fail,
        }
    }
}

/// The client cancels only a log that it follows, only after the user
/// interrupted, and with nothing but the stop code; what it sends first is
/// the byte of its command.
pub proof fn lemma_client_cancels_with_stop_code(client: ClientView, event: ClientEvent)
    ensures
        client.directive(event) matches ClientDirectiveView::Cancel(bytes) ==> {
            &&& bytes == seq![STOP_CODE]
            &&& client.phase is Streaming
            &&& event is Interrupted
        },
        client.directive(event) matches ClientDirectiveView::Send(bytes) ==> {
            &&& bytes == seq![encode(client.action)]
            &&& client.phase is Connecting
        },
        client.after(event).phase is Streaming ==> follows(client.action),
        client.after(event).phase is Reading ==> !follows(client.action),
{
}

} // verus!
