//! Translation of inbound host-channel messages into the agent's own
//! event stream.
//!
//! The host channel carries one message type in each direction; only
//! five kinds are legitimate inbound. Anything else arriving from the
//! host is a protocol error, and protocol errors are fatal: the host is
//! the sole trust anchor, so no partial-protocol recovery is attempted.

use vstd::prelude::*;
use crate::message::{ClipboardEvent, DbusNotification, DbusNotificationClosed, DirSpec, Message,
    RunSpec};

verus! {

/// One message of the host channel. The host sends the first five
/// kinds; the remaining kinds only ever travel towards the host, so
/// receiving one is a protocol error.
pub enum AgentMessage {
    AgentMountRequest(DirSpec),
    AgentRunRequest(RunSpec),
    AgentLayoutRequest(String),
    ClipboardEvent(ClipboardEvent),
    DbusNotificationClosed(DbusNotificationClosed),
    AgentHandshake(String),
    AgentAck(i32),
    AgentExitCode(i32),
    DbusNotification(DbusNotification),
}

impl AgentMessage {
    /// The kinds the host may legitimately send during normal
    /// operation.
    pub open spec fn is_valid_inbound(self) -> bool {
        ||| self is AgentMountRequest
        ||| self is AgentRunRequest
        ||| self is AgentLayoutRequest
        ||| self is ClipboardEvent
        ||| self is DbusNotificationClosed
    }
}

/// A malformed or unexpected message arrived from the host.
pub struct ProtocolError {
}

impl ProtocolError {
    /// The wording the agent reports a protocol error with.
    pub fn message(&self) -> (s: String)
        ensures
            s@ == "Protocol error"@,
    {
        String::from_str("Protocol error")
    }
}

/// Translate one inbound host message into the event the dispatcher
/// consumes. Exactly the five legitimate inbound kinds translate, each
/// to its own event, with the payload carried over unchanged; every
/// other kind is refused as a protocol error.
pub fn translate_host_message(msg: AgentMessage) -> (r: Result<Message, ProtocolError>)
    ensures
        r is Ok <==> msg.is_valid_inbound(),
        msg matches AgentMessage::AgentMountRequest(dir)
            ==> r matches Ok(m) && m == Message::MountRequest(dir),
        msg matches AgentMessage::AgentRunRequest(rr)
            ==> r matches Ok(m) && m == Message::RunRequest(rr),
        msg matches AgentMessage::AgentLayoutRequest(layout)
            ==> r matches Ok(m) && m == Message::LayoutRequest(layout),
        msg matches AgentMessage::ClipboardEvent(ce)
            ==> r matches Ok(m) && m == Message::RemoteClipboardEvent(ce),
        msg matches AgentMessage::DbusNotificationClosed(nc)
            ==> r matches Ok(m) && m == Message::DbusNotificationClosed(nc),
{
    match msg {
        AgentMessage::AgentMountRequest(dir) => Ok(Message::MountRequest(dir)),
        AgentMessage::AgentRunRequest(rr) => Ok(Message::RunRequest(rr)),
        AgentMessage::AgentLayoutRequest(layout) => Ok(Message::LayoutRequest(layout)),
        AgentMessage::ClipboardEvent(ce) => Ok(Message::RemoteClipboardEvent(ce)),
        AgentMessage::DbusNotificationClosed(nc) => Ok(Message::DbusNotificationClosed(nc)),
        _ => Err(ProtocolError {  }),
    }
}

/// Whether the host's protocol version matches the agent's own: the
/// handshake preceding normal operation compares the two version
/// strings, and any mismatch is a fatal startup error.
pub fn version_matches(ours: &str, theirs: &str) -> (r: bool)
    ensures
        r == (ours@ == theirs@),
{
    let a = ours.to_string();
    let b = theirs.to_string();
    a == b
}

} // verus!
