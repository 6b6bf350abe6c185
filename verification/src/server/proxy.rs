//! The connection to the control agent: framing of messages and what each
//! event on the connection leads to.
//!
//! Messages travel as lines of JSON. The task that owns the socket reads
//! and writes and turns bytes into messages; what to do on each event is
//! decided here.

use crate::server::types::{ProxyToServerMsg, ServerToProxyMsg};
use vstd::prelude::*;

verus! {

/// The byte that ends every message on the wire.
pub const NEWLINE: u8 = 10;

/// A message framed for the wire: its encoding, then one newline, to be
/// written in one go.
pub fn frame(encoded: Vec<u8>) -> (framed: Vec<u8>)
    ensures
        framed@ == encoded@.push(NEWLINE),
{
    let mut framed = encoded;
    framed.push(NEWLINE);
    framed
}

/// What happens on the connection.
pub enum ProxyEvent {
    /// The control agent has connected.
    Connected,
    /// A line was read: so many bytes, and the message that it decodes to, if
    /// it does.
    LineRead { bytes: usize, decoded: Option<ProxyToServerMsg> },
    /// Reading failed.
    ReadFailed,
    /// A message for the control agent is due.
    Outbound(ServerToProxyMsg),
}

/// What the owner of the connection does next.
pub enum ProxyAction {
    /// Writes the message.
    Send(ServerToProxyMsg),
    /// Hands the message to the server.
    Forward(ProxyToServerMsg),
    /// Counts a line that does not decode and reads on.
    CountParseError,
    /// Closes the connection: the control agent has gone.
    Close,
    /// Counts a socket error and closes the connection.
    CountIoErrorAndClose,
}

/// The label of the error metric for a line that does not decode.
pub const ERROR_PARSE: &'static str = "parse";

/// The label of the error metric for a failed read.
pub const ERROR_SOCKET_IO: &'static str = "socket_io";

/// What an event on the connection leads to. The first message on a new
/// connection is `Ready`. A read of no bytes is the end of the connection;
/// a line that decodes goes to the server; one that does not is counted and
/// the connection lives on; a failed read is counted and ends it. A message
/// that is due is written.
pub open spec fn action_spec(event: ProxyEvent) -> ProxyAction {
    match event {
        ProxyEvent::Connected => ProxyAction::Send(ServerToProxyMsg::Ready),
        ProxyEvent::LineRead { bytes, decoded } => if bytes == 0 {
            ProxyAction::Close
        } else {
            match decoded {
                Some(msg) => ProxyAction::Forward(msg),
                None => ProxyAction::CountParseError,
            }
        },
        ProxyEvent::ReadFailed => ProxyAction::CountIoErrorAndClose,
        ProxyEvent::Outbound(msg) => ProxyAction::Send(msg),
    }
}

/// Decides what an event on the connection leads to.
pub fn handle_event(event: ProxyEvent) -> (action: ProxyAction)
    ensures
        action == action_spec(event),
{
    match event {
        ProxyEvent::Connected => ProxyAction::Send(ServerToProxyMsg::Ready),
        ProxyEvent::LineRead { bytes, decoded } => {
            if bytes == 0 {
                ProxyAction::Close
            } else {
                match decoded {
                    Some(msg) => ProxyAction::Forward(msg),
                    None => ProxyAction::CountParseError,
                }
            }
        },
        ProxyEvent::ReadFailed => ProxyAction::CountIoErrorAndClose,
        ProxyEvent::Outbound(msg) => ProxyAction::Send(msg),
    }
}

/// Whether the connection goes on after an action.
pub fn keeps_open(action: &ProxyAction) -> (open: bool)
    ensures
        open == !(*action is Close || *action is CountIoErrorAndClose),
{
    match action {
        ProxyAction::Close => false,
        ProxyAction::CountIoErrorAndClose => false,
        _ => true,
    }
}

} // verus!
