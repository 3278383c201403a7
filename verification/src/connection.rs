//! The life of one viewer connection.
//!
//! A connection is `Connected` while frames arrive and becomes `Closing` on a
//! close frame or a transport failure. On entering `Closing` the sessions it
//! owns are destroyed; after that nothing it receives has any effect. The
//! host reads the socket and reports each event; the connection decides what
//! follows.

use vstd::prelude::*;
use crate::ident::{is_random_uuid, ConnectionId};
use crate::message::{Effect, EffectView, Reaction, ReactionView};
use crate::protocol::{frame_handled, frame_of, handle_websocket_message, ProtocolError};
use crate::registry::SessionRegistry;
use crate::terminal::{cleaned_up, cleanup_terminal_sessions};

verus! {

/// Where a connection stands in its life.
#[derive(Clone, Copy, Debug, PartialEq, Eq, Structural)]
pub enum ConnectionPhase {
    /// Frames are being received and handled.
    Connected,
    /// The connection is going away: its sessions have been destroyed and no
    /// more frames are handled.
    Closing,
}

/// What the host observed on the socket.
#[derive(Clone, Debug, PartialEq, Eq)]
pub enum SocketEvent {
    /// A text frame arrived.
    Text(String),
    /// A close frame arrived, or the stream ended.
    Close,
    /// Receiving failed.
    Failure,
    /// A frame of another kind arrived.
    Other,
}

/// What follows an event.
#[derive(Clone, Debug, PartialEq, Eq)]
pub enum ConnectionStep {
    /// The frame was handled, with this reaction.
    Handled(Reaction),
    /// The frame was dropped for this reason. The connection stays open.
    Rejected(ProtocolError),
    /// The event calls for nothing.
    Skipped,
    /// The connection is closing. Its sessions have left the registry; the
    /// host carries out the effects, one `Kill` for each of them, and stops
    /// reading.
    Closing(Vec<Effect>),
}

impl ConnectionStep {
    /// The outcome of handling a frame, where the step is one.
    pub open spec fn frame_outcome(self) -> Option<Result<ReactionView, ProtocolError>> {
        match self {
            ConnectionStep::Handled(reaction) => Some(Ok(reaction@)),
            ConnectionStep::Rejected(e) => Some(Err(e)),
            ConnectionStep::Skipped => None,
            ConnectionStep::Closing(_) => None,
        }
    }

    /// The effects of the closing, where the step is one.
    pub open spec fn closing_effects(self) -> Option<Seq<EffectView>> {
        match self {
            ConnectionStep::Closing(effects) => Some(effects.deep_view()),
            _ => None,
        }
    }
}

/// The state of a connection: its identity and its phase.
pub struct ConnectionState {
    pub id: ConnectionId,
    pub phase: ConnectionPhase,
}

/// One viewer connection.
pub struct Connection {
    id: ConnectionId,
    phase: ConnectionPhase,
}

impl View for Connection {
    type V = ConnectionState;

    closed spec fn view(&self) -> ConnectionState {
        ConnectionState { id: self.id, phase: self.phase }
    }
}

impl Connection {
    /// A newly accepted connection under a freshly drawn identifier, the bits
    /// of a random UUID.
    pub fn open() -> (connection: Connection)
        ensures
            connection@.phase == ConnectionPhase::Connected,
            is_random_uuid(connection@.id.value),
    {
        Connection { id: ConnectionId::generate(), phase: ConnectionPhase::Connected }
    }

    /// A newly accepted connection under the given identifier.
    pub fn with_id(id: ConnectionId) -> (connection: Connection)
        ensures
            connection@ == (ConnectionState { id, phase: ConnectionPhase::Connected }),
    {
        Connection { id, phase: ConnectionPhase::Connected }
    }

    /// The connection's identifier.
    pub fn id(&self) -> (id: ConnectionId)
        ensures
            id == self@.id,
    {
        self.id
    }

    /// The connection's phase.
    pub fn phase(&self) -> (phase: ConnectionPhase)
        ensures
            phase == self@.phase,
    {
        self.phase
    }

    /// Takes in one socket event.
    ///
    /// While connected, a text frame is handled as a message from this
    /// connection and any other frame is skipped. A close frame or a failure
    /// starts the closing: every session that the connection still owns is
    /// destroyed, each with one `Kill`, and sessions of other owners are
    /// untouched. Once the closing has started every event is skipped and
    /// nothing changes.
    pub fn on_event(
        &mut self,
        registry: &mut SessionRegistry,
        event: SocketEvent,
    ) -> (step: ConnectionStep)
        ensures
            final(self)@.id == old(self)@.id,
            old(self)@.phase == ConnectionPhase::Closing ==> step is Skipped && final(self)@
                == old(self)@ && final(registry)@ == old(registry)@,
            old(self)@.phase == ConnectionPhase::Connected ==> match event {
                SocketEvent::Text(text) => {
                    &&& final(self)@ == old(self)@
                    &&& step.frame_outcome() matches Some(outcome) && frame_handled(
                        old(registry)@,
                        old(self)@.id,
                        frame_of(text@),
                        final(registry)@,
                        outcome,
                    )
                },
                SocketEvent::Close => {
                    &&& final(self)@.phase == ConnectionPhase::Closing
                    &&& step.closing_effects() matches Some(effects) && cleaned_up(
                        old(registry)@,
                        old(self)@.id,
                        final(registry)@,
                        effects,
                    )
                },
                SocketEvent::Failure => {
                    &&& final(self)@.phase == ConnectionPhase::Closing
                    &&& step.closing_effects() matches Some(effects) && cleaned_up(
                        old(registry)@,
                        old(self)@.id,
                        final(registry)@,
                        effects,
                    )
                },
                SocketEvent::Other => step is Skipped && final(self)@ == old(self)@
                    && final(registry)@ == old(registry)@,
            },
    {
        match self.phase {
            ConnectionPhase::Connected => {},
            ConnectionPhase::Closing => { return ConnectionStep::Skipped; },
        }
        match event {
            SocketEvent::Text(text) => {
                match handle_websocket_message(text.as_str(), registry, self.id) {
                    Ok(reaction) => ConnectionStep::Handled(reaction),
                    Err(e) => ConnectionStep::Rejected(e),
                }
            },
            SocketEvent::Close => {
                self.phase = ConnectionPhase::Closing;
                ConnectionStep::Closing(cleanup_terminal_sessions(registry, self.id))
            },
            SocketEvent::Failure => {
                self.phase = ConnectionPhase::Closing;
                ConnectionStep::Closing(cleanup_terminal_sessions(registry, self.id))
            },
            SocketEvent::Other => ConnectionStep::Skipped,
        }
    }
}

} // verus!
