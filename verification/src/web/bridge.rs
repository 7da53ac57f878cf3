//! The stream bridge: what to do with each thing that happens between one
//! streaming client and one port session.
//!
//! A bridge runs two loops. The outbound loop waits on the session's
//! broadcast and sends each block to the client as a binary frame. The
//! inbound loop waits on the socket and forwards what the client sends to
//! the session's write mailbox. Each loop reports what it saw as an event
//! and does what the action says; whichever loop exits first ends the other.

use vstd::prelude::*;
use vstd::string::*;
use vstd::utf8::*;
use crate::serial::{not_found_text, SerialManager};

verus! {

/// A frame on the streaming socket.
#[derive(Debug, Clone, PartialEq, Eq)]
pub enum Frame {
    Binary(Vec<u8>),
    Text(String),
    Ping(Vec<u8>),
    Pong(Vec<u8>),
    Close,
}

/// What the inbound loop saw.
#[derive(Debug, Clone, PartialEq, Eq)]
pub enum InboundEvent {
    /// The client sent a frame.
    Frame(Frame),
    /// The socket ended or failed.
    SocketClosed,
    /// The session refused the block that was forwarded last.
    Rejected,
}

/// What the inbound loop does next.
#[derive(Debug, Clone, PartialEq, Eq)]
pub enum InboundAction {
    /// Put these bytes on the session's write mailbox, then wait again.
    Forward(Vec<u8>),
    /// Wait for the next frame.
    Ignore,
    /// Leave the loop.
    Exit,
}

/// What the outbound loop saw.
#[derive(Debug, Clone, PartialEq, Eq)]
pub enum OutboundEvent {
    /// The session published a block.
    Block(Vec<u8>),
    /// The subscriber fell behind and this many blocks were dropped for it.
    Lagged(u64),
    /// The session's broadcast is closed.
    SessionClosed,
    /// Sending the last frame to the client failed.
    SocketFailed,
}

/// What the outbound loop does next.
#[derive(Debug, Clone, PartialEq, Eq)]
pub enum OutboundAction {
    /// Send this frame to the client, then wait again.
    Send(Frame),
    /// Wait for the next block.
    Skip,
    /// Leave the loop.
    Exit,
}

/// The bytes that a client frame carries for the device: a binary frame's
/// payload as it is, a text frame's UTF-8 bytes. Other frames carry none.
pub open spec fn payload(frame: Frame) -> Option<Seq<u8>> {
    match frame {
        Frame::Binary(data) => Some(data@),
        Frame::Text(text) => Some(encode_utf8(text@)),
        _ => None,
    }
}

/// The text of the single frame a client gets when the session it asked
/// for does not exist.
pub open spec fn refusal_text(name: Seq<char>) -> Seq<char> {
    "Error: "@ + not_found_text(name)
}

/// The inbound decision. Binary and text frames are forwarded byte for
/// byte; a close frame, the end of the socket and a refusal by the session
/// end the loop; pings and pongs are passed over.
pub fn inbound_action(event: InboundEvent) -> (action: InboundAction)
    ensures
        match event {
            InboundEvent::Frame(Frame::Binary(data)) => action == InboundAction::Forward(data),
            InboundEvent::Frame(Frame::Text(text)) => action matches InboundAction::Forward(bytes)
                && bytes@ == encode_utf8(text@),
            InboundEvent::Frame(Frame::Ping(_)) | InboundEvent::Frame(Frame::Pong(_)) => action
                == InboundAction::Ignore,
            InboundEvent::Frame(Frame::Close) | InboundEvent::SocketClosed
            | InboundEvent::Rejected => action == InboundAction::Exit,
        },
{
    match event {
        InboundEvent::Frame(Frame::Binary(data)) => InboundAction::Forward(data),
        InboundEvent::Frame(Frame::Text(text)) => InboundAction::Forward(
            text.as_str().as_bytes_vec(),
        ),
        InboundEvent::Frame(Frame::Ping(_)) => InboundAction::Ignore,
        InboundEvent::Frame(Frame::Pong(_)) => InboundAction::Ignore,
        InboundEvent::Frame(Frame::Close) => InboundAction::Exit,
        InboundEvent::SocketClosed => InboundAction::Exit,
        InboundEvent::Rejected => InboundAction::Exit,
    }
}

/// The outbound decision. Each published block goes out as one binary
/// frame, unchanged. A lag notice is dropped and the loop goes on: the
/// blocks it stands for are lost to this client only. A closed broadcast and
/// a failed send end the loop.
pub fn outbound_action(event: OutboundEvent) -> (action: OutboundAction)
    ensures
        match event {
            OutboundEvent::Block(data) => action == OutboundAction::Send(Frame::Binary(data)),
            OutboundEvent::Lagged(_) => action == OutboundAction::Skip,
            OutboundEvent::SessionClosed | OutboundEvent::SocketFailed => action
                == OutboundAction::Exit,
        },
{
    match event {
        OutboundEvent::Block(data) => OutboundAction::Send(Frame::Binary(data)),
        OutboundEvent::Lagged(_) => OutboundAction::Skip,
        OutboundEvent::SessionClosed => OutboundAction::Exit,
        OutboundEvent::SocketFailed => OutboundAction::Exit,
    }
}

/// Starts a bridge: finds the session to attach to. If there is none, the
/// result is the one text frame to send before the socket is closed.
pub fn open_bridge<'a, S>(manager: &'a SerialManager<S>, name: &str) -> (result: Result<&'a S, Frame>)
    requires
        manager.well_formed(),
    ensures
        match result {
            Ok(session) => manager@.contains_key(name@) && *session == manager@[name@],
            Err(frame) => {
                &&& !manager@.contains_key(name@)
                &&& frame matches Frame::Text(text)
                &&& text@ == refusal_text(name@)
            },
        },
{
    match manager.get_connection(name) {
        Some(session) => Ok(session),
        None => {
            let text = String::from_str("Error: ").concat("Connection not found: ").concat(name);
            Err(Frame::Text(text))
        },
    }
}

} // verus!
