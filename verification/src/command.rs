//! The wire vocabulary: one byte selects a command, one reserved byte cancels
//! a follow-mode session.

use vstd::prelude::*;

verus! {

/// The byte a client sends on an open follow-mode session to end it early.
/// It is distinct from every command byte.
pub const STOP_CODE: u8 = 255;

/// Why a first byte did not select a command.
#[derive(Clone, Copy, Debug, PartialEq, Eq, Structural)]
pub enum DecodeError {
    /// The connection delivered no byte at all.
    EmptyMessage,
    /// The byte is outside the command vocabulary.
    InvalidOption,
}

/// The options of the logs command.
#[derive(Clone, Copy, Debug, PartialEq, Eq, Structural)]
pub struct LogsArgs {
    /// Whether the logs are streamed as they are produced.
    pub follow: bool,
}

/// What a client asks the server to do.
#[derive(Clone, Copy, Debug, PartialEq, Eq, Structural)]
pub enum Action {
    /// Checks the logs of the managed server.
    Logs(LogsArgs),
    /// Starts the managed server.
    Start,
    /// Stops the managed server.
    Stop,
    /// Restarts the managed server.
    Restart,
}

/// A decoded request: the action that one connection asks for.
#[derive(Clone, Copy, Debug, PartialEq, Eq, Structural)]
pub struct Command {
    command: Action,
}

/// The action that a command byte selects.
pub open spec fn decode(byte: u8) -> Result<Action, DecodeError> {
    if byte == 0 {
        Ok(Action::Logs(LogsArgs { follow: true }))
    } else if byte == 1 {
        Ok(Action::Logs(LogsArgs { follow: false }))
    } else if byte == 2 {
        Ok(Action::Start)
    } else if byte == 3 {
        Ok(Action::Stop)
    } else if byte == 4 {
        Ok(Action::Restart)
    } else {
        Err(DecodeError::InvalidOption)
    }
}

/// The action that the first byte of a message selects.
pub open spec fn decode_message(bytes: Seq<u8>) -> Result<Action, DecodeError> {
    if bytes.len() == 0 {
        Err(DecodeError::EmptyMessage)
    } else {
        decode(bytes[0])
    }
}

/// The byte that selects an action on the wire.
pub open spec fn encode(action: Action) -> u8 {
    match action {
        Action::Logs(args) => if args.follow { 0u8 } else { 1u8 },
        Action::Start => 2u8,
        Action::Stop => 3u8,
        Action::Restart => 4u8,
    }
}

/// What the server answers to a first read that selects no command.
pub open spec fn refusal(read: Seq<u8>) -> Seq<char> {
    if read.len() == 0 {
        "empty message"@
    } else {
        DecodeError::InvalidOption.text()
    }
}

impl DecodeError {
    /// The error in words.
    pub open spec fn text(self) -> Seq<char> {
        match self {
            DecodeError::EmptyMessage => "Empty message"@,
            DecodeError::InvalidOption => "Invalid option"@,
        }
    }

    /// The error in words.
    pub fn message(&self) -> (message: &'static str)
        ensures
            message@ == self.text(),
    {
        match self {
            DecodeError::EmptyMessage => "Empty message",
            DecodeError::InvalidOption => "Invalid option",
        }
    }
}

impl LogsArgs {
    /// Whether the logs are streamed as they are produced.
    pub fn follow(&self) -> (follow: bool)
        ensures
            follow == self.follow,
    {
        self.follow
    }
}

/// Decodes a command byte.
impl TryFrom<u8> for Action {
    type Error = DecodeError;

    fn try_from(value: u8) -> (decoded: Result<Self, DecodeError>) {
        match value {
            0 => Ok(Action::Logs(LogsArgs { follow: true })),
            1 => Ok(Action::Logs(LogsArgs { follow: false })),
            2 => Ok(Action::Start),
            3 => Ok(Action::Stop),
            4 => Ok(Action::Restart),
            _ => Err(DecodeError::InvalidOption),
        }
    }
}

impl vstd::std_specs::convert::TryFromSpecImpl<u8> for Action {
    open spec fn obeys_try_from_spec() -> bool {
        true
    }

    open spec fn try_from_spec(value: u8) -> Result<Self, DecodeError> {
        decode(value)
    }
}

/// Decodes the first byte of a message, and rejects a message without any.
impl<'a> TryFrom<&'a [u8]> for Action {
    type Error = DecodeError;

    fn try_from(value: &'a [u8]) -> (decoded: Result<Self, DecodeError>) {
        if value.len() == 0 {
            Err(DecodeError::EmptyMessage)
        } else {
            Action::try_from(value[0])
        }
    }
}

impl<'a> vstd::std_specs::convert::TryFromSpecImpl<&'a [u8]> for Action {
    open spec fn obeys_try_from_spec() -> bool {
        true
    }

    open spec fn try_from_spec(value: &'a [u8]) -> Result<Self, DecodeError> {
        decode_message(value@)
    }
}

impl Action {
    /// The byte that selects the action on the wire.
    pub fn as_u8(&self) -> (byte: u8)
        ensures
            byte == encode(*self),
    {
        match self {
            Action::Logs(args) => if args.follow { 0 } else { 1 },
            Action::Start => 2,
            Action::Stop => 3,
            Action::Restart => 4,
        }
    }

    /// The command that asks for the action.
    pub fn into_command(self) -> (command: Command)
        ensures
            command@ == self,
    {
        Command { command: self }
    }
}

impl View for Command {
    type V = Action;

    closed spec fn view(&self) -> Action {
        self.command
    }
}

impl Command {
    /// Returns the client requested action.
    pub fn get(&self) -> (action: &Action)
        ensures
            *action == self@,
    {
        &self.command
    }

    /// Appends the byte representation of the command to `writer` and
    /// returns the number of bytes appended, which is one.
    pub fn write_self(&self, writer: &mut Vec<u8>) -> (written: usize)
        ensures
            final(writer)@ == old(writer)@.push(encode(self@)),
            written == 1,
    {
        writer.push(self.command.as_u8());
        1
    }

    /// Appends the `STOP_CODE` to `writer` and returns the number of bytes
    /// appended, which is one.
    ///
    /// A client sends these bytes when it quits a follow-mode session; the
    /// server then ends the session and cleans up the process behind it.
    pub fn ctrl_c(&self, writer: &mut Vec<u8>) -> (written: usize)
        ensures
            final(writer)@ == old(writer)@.push(STOP_CODE),
            written == 1,
    {
        writer.push(STOP_CODE);
        1
    }

    /// Decodes what one read of a fresh connection delivered: `read` holds
    /// the bytes that arrived, none if the peer closed before sending. It
    /// succeeds exactly when the first byte selects an action; otherwise the
    /// error is the text that goes back to the peer.
    pub fn try_from_reader(read: &[u8]) -> (decoded: Result<Self, String>)
        ensures
            match decoded {
                Ok(command) => decode_message(read@) == Ok::<Action, DecodeError>(command@),
                Err(text) => decode_message(read@) is Err && text@ == refusal(read@),
            },
    {
        if read.len() == 0 {
            Err("empty message".to_owned())
        } else {
            match Action::try_from(read[0]) {
                Ok(action) => Ok(Command { command: action }),
                Err(error) => Err(error.message().to_owned()),
            }
        }
    }
}

/// Decodes a message into the command that its first byte selects.
impl<'a> TryFrom<&'a [u8]> for Command {
    type Error = DecodeError;

    fn try_from(value: &'a [u8]) -> (decoded: Result<Self, DecodeError>)
        ensures
            match decoded {
                Ok(command) => decode_message(value@) == Ok::<Action, DecodeError>(command@),
                Err(error) => decode_message(value@) == Err::<Action, DecodeError>(error),
            },
    {
        match Action::try_from(value) {
            Ok(action) => Ok(Command { command: action }),
            Err(error) => Err(error),
        }
    }
}

impl<'a> vstd::std_specs::convert::TryFromSpecImpl<&'a [u8]> for Command {
    open spec fn obeys_try_from_spec() -> bool {
        true
    }

    closed spec fn try_from_spec(value: &'a [u8]) -> Result<Self, DecodeError> {
        match decode_message(value@) {
            Ok(action) => Ok(Command { command: action }),
            Err(error) => Err(error),
        }
    }
}

/// Every byte of the vocabulary decodes, and encoding what it decodes to
/// gives the byte back.
pub proof fn lemma_encode_inverts_decode(byte: u8)
    requires
        byte <= 4,
    ensures
        decode(byte) is Ok,
        encode(decode(byte).unwrap()) == byte,
{
}

/// Encoding loses nothing: every action decodes from its own byte.
pub proof fn lemma_decode_inverts_encode(action: Action)
    ensures
        encode(action) <= 4,
        decode(encode(action)) == Ok::<Action, DecodeError>(action),
{
}

/// A byte outside the vocabulary is an invalid option, and a message without
/// bytes is an empty message.
pub proof fn lemma_decode_rejects(byte: u8, bytes: Seq<u8>)
    ensures
        byte > 4 ==> decode(byte) == Err::<Action, DecodeError>(DecodeError::InvalidOption),
        bytes.len() == 0 ==> decode_message(bytes) == Err::<Action, DecodeError>(
            DecodeError::EmptyMessage,
        ),
        bytes.len() > 0 ==> decode_message(bytes) == decode(bytes[0]),
{
}

/// The stop code selects no action, and no action is encoded as the stop code.
pub proof fn lemma_stop_code_is_no_command(action: Action)
    ensures
        decode(STOP_CODE) == Err::<Action, DecodeError>(DecodeError::InvalidOption),
        encode(action) != STOP_CODE,
{
}

} // verus!
