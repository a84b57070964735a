//! The failures that the bridge tells apart.
use vstd::prelude::*;

verus! {

/// How an inbound frame or event can fall short of the hub's protocol.
#[derive(Clone, Copy, Debug, PartialEq, Eq, Structural)]
pub enum ProtocolFault {
    /// The text is not JSON.
    Malformed,
    /// The text is JSON but no object.
    NotAnObject,
    /// The object has no string member `type`.
    MissingType,
    /// The `type` is none that the bridge handles.
    UnknownType,
    /// A `result` frame has no unsigned integer member `id`.
    MissingId,
    /// A `result` frame has no boolean member `success`.
    MissingSuccess,
    /// A notification reply names no plate.
    MissingPlate,
    /// A notification reply carries no text.
    MissingReply,
}

/// Why the bridge gave up on one message or one plate.
#[derive(Clone, Copy, Debug, PartialEq, Eq, Structural)]
pub enum BridgeError {
    /// A socket write or an HTTP call failed.
    Transport,
    /// A frame is malformed or of an unexpected shape.
    Protocol(ProtocolFault),
    /// The access token is not configured.
    Config,
    /// A well-formed push event of a kind that the bridge does not handle.
    UnexpectedEvent,
    /// The storage gateway failed.
    Storage,
}

impl BridgeError {
    /// A short description for the log.
    pub fn message(&self) -> (text: &'static str)
        ensures
            text@ == self.message_text(),
    {
        match self {
            BridgeError::Transport => "transport failure",
            BridgeError::Protocol(ProtocolFault::Malformed) => "failed to parse websocket message",
            BridgeError::Protocol(ProtocolFault::NotAnObject) => "unexpected message JSON type",
            BridgeError::Protocol(ProtocolFault::MissingType) => "unrecognized type for message",
            BridgeError::Protocol(ProtocolFault::UnknownType) => "unrecognized message type",
            BridgeError::Protocol(ProtocolFault::MissingId) => "no id field in result",
            BridgeError::Protocol(ProtocolFault::MissingSuccess) => "no success field in result",
            BridgeError::Protocol(ProtocolFault::MissingPlate) => "missing plate field in data",
            BridgeError::Protocol(ProtocolFault::MissingReply) => "missing text input in data",
            BridgeError::Config => "ACCESS_TOKEN environment variable unset",
            BridgeError::UnexpectedEvent => "unexpected event type",
            BridgeError::Storage => "error updating database",
        }
    }

    /// The description that `message` returns.
    pub open spec fn message_text(self) -> Seq<char> {
        match self {
            BridgeError::Transport => "transport failure"@,
            BridgeError::Protocol(ProtocolFault::Malformed) => "failed to parse websocket message"@,
            BridgeError::Protocol(ProtocolFault::NotAnObject) => "unexpected message JSON type"@,
            BridgeError::Protocol(ProtocolFault::MissingType) => "unrecognized type for message"@,
            BridgeError::Protocol(ProtocolFault::UnknownType) => "unrecognized message type"@,
            BridgeError::Protocol(ProtocolFault::MissingId) => "no id field in result"@,
            BridgeError::Protocol(ProtocolFault::MissingSuccess) => "no success field in result"@,
            BridgeError::Protocol(ProtocolFault::MissingPlate) => "missing plate field in data"@,
            BridgeError::Protocol(ProtocolFault::MissingReply) => "missing text input in data"@,
            BridgeError::Config => "ACCESS_TOKEN environment variable unset"@,
            BridgeError::UnexpectedEvent => "unexpected event type"@,
            BridgeError::Storage => "error updating database"@,
        }
    }
}

} // verus!
