//! The per-connection state machine.
//!
//! Each client connection pairs a reader task, which decodes inbound
//! frames into commands, with a writer task, which relays published
//! responses outward.  The transport work itself is asynchronous and
//! lives outside the crate; what is decided here is only the next state
//! and the action to take for each event, so the surrounding tasks can
//! follow the protocol without choices of their own.

use vstd::prelude::*;

verus! {

/// Lifecycle of one client connection.
#[derive(Clone, Copy, PartialEq, Eq, Structural, Debug)]
pub enum ConnState {
    Connecting,
    Open,
    Closed,
}

/// What the transport observed on a connection.
#[derive(Clone, Copy, PartialEq, Eq, Structural, Debug)]
pub enum ConnEvent {
    /// The handshake completed.
    Opened,
    /// A text frame arrived and decoded into a command.
    TextDecoded,
    /// A text frame arrived but did not decode.
    TextMalformed,
    /// The peer sent a close frame.
    CloseFrame,
    /// A frame of some other kind arrived.
    OtherFrame,
    /// The transport failed.
    TransportError,
    /// The sibling task (reader for the writer, writer for the reader)
    /// ended.
    SiblingEnded,
}

/// What the surrounding task must do next.
#[derive(Clone, Copy, PartialEq, Eq, Structural, Debug)]
pub enum ConnAction {
    /// Forward the decoded command to the command channel.
    Forward,
    /// Log if desired and carry on; nothing is retried and no rejection
    /// is sent back.
    Ignore,
    /// Cancel the sibling task and consider the connection closed.
    Shut,
}

/// The transition relation of the connection lifecycle.  A malformed
/// frame never closes the connection; a close frame, a transport error
/// or the end of the sibling task always does; an event on a closed
/// connection does nothing.
pub open spec fn spec_conn_step(s: ConnState, e: ConnEvent) -> (ConnState, ConnAction) {
    match s {
        ConnState::Connecting => match e {
            ConnEvent::Opened => (ConnState::Open, ConnAction::Ignore),
            _ => (ConnState::Closed, ConnAction::Shut),
        },
        ConnState::Open => match e {
            ConnEvent::Opened => (ConnState::Open, ConnAction::Ignore),
            ConnEvent::TextDecoded => (ConnState::Open, ConnAction::Forward),
            ConnEvent::TextMalformed => (ConnState::Open, ConnAction::Ignore),
            ConnEvent::OtherFrame => (ConnState::Open, ConnAction::Ignore),
            ConnEvent::CloseFrame => (ConnState::Closed, ConnAction::Shut),
            ConnEvent::TransportError => (ConnState::Closed, ConnAction::Shut),
            ConnEvent::SiblingEnded => (ConnState::Closed, ConnAction::Shut),
        },
        ConnState::Closed => (ConnState::Closed, ConnAction::Ignore),
    }
}

/// Steps the connection lifecycle by one observed event.
pub fn conn_step(s: ConnState, e: ConnEvent) -> (r: (ConnState, ConnAction))
    ensures
        r == spec_conn_step(s, e),
{
    match s {
        ConnState::Connecting => match e {
            ConnEvent::Opened => (ConnState::Open, ConnAction::Ignore),
            _ => (ConnState::Closed, ConnAction::Shut),
        },
        ConnState::Open => match e {
            ConnEvent::Opened => (ConnState::Open, ConnAction::Ignore),
            ConnEvent::TextDecoded => (ConnState::Open, ConnAction::Forward),
            ConnEvent::TextMalformed => (ConnState::Open, ConnAction::Ignore),
            ConnEvent::OtherFrame => (ConnState::Open, ConnAction::Ignore),
            ConnEvent::CloseFrame => (ConnState::Closed, ConnAction::Shut),
            ConnEvent::TransportError => (ConnState::Closed, ConnAction::Shut),
            ConnEvent::SiblingEnded => (ConnState::Closed, ConnAction::Shut),
        },
        ConnState::Closed => (ConnState::Closed, ConnAction::Ignore),
    }
}

/// Law: a command is only ever forwarded by an open connection, an open
/// connection survives malformed input, and a closed connection never
/// acts or reopens.
pub proof fn lemma_conn_step_laws(s: ConnState, e: ConnEvent)
    ensures
        spec_conn_step(s, e).1 == ConnAction::Forward ==> s == ConnState::Open && e
            == ConnEvent::TextDecoded,
        s == ConnState::Open && e == ConnEvent::TextMalformed ==> spec_conn_step(s, e).0
            == ConnState::Open,
        s == ConnState::Closed ==> spec_conn_step(s, e) == (ConnState::Closed, ConnAction::Ignore),
        spec_conn_step(ConnState::Closed, e).0 == ConnState::Closed,
{
}

} // verus!
