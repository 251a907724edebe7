//! The command vocabulary and the messages exchanged with the service.

use vstd::prelude::*;

verus! {

/// Identifies a client process.
pub type ClientId = u64;

/// Identifies a server node.
pub type NodeId = u64;

/// Identifies an issued command: the position of its record in the request
/// ledger, dense and never reused.
pub type CommandId = usize;

/// A command against the key-value service.
pub enum KVCommand {
    Put(String, String),
    Get(String),
    Delete(String),
}

/// A message the client sends: one command under its identifier.
pub enum ClientMessage {
    Append(CommandId, KVCommand),
}

/// A message the service sends: the start signal carrying the scheduled start
/// time in milliseconds since the epoch, or the response to one command (a
/// read carries the value found, if any).
pub enum ServerMessage {
    StartSignal(i64),
    Read(CommandId, Option<String>),
    Write(CommandId),
}

impl ServerMessage {
    /// Whether this message answers an issued command.
    pub open spec fn is_response(&self) -> bool {
        !(self matches ServerMessage::StartSignal(_))
    }

    /// The identifier of the command a response answers.
    pub open spec fn spec_command_id(&self) -> CommandId
        recommends
            self.is_response(),
    {
        match *self {
            ServerMessage::StartSignal(_) => 0,
            ServerMessage::Read(id, _) => id,
            ServerMessage::Write(id) => id,
        }
    }

    /// The identifier of the command this response answers.
    pub fn command_id(&self) -> (id: CommandId)
        requires
            self.is_response(),
        ensures
            id == self.spec_command_id(),
    {
        match self {
            ServerMessage::StartSignal(_) => 0,
            ServerMessage::Read(id, _) => *id,
            ServerMessage::Write(id) => *id,
        }
    }
}

} // verus!
