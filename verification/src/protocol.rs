//! The inbound message protocol: from the text of a frame to what it asks
//! for.
//!
//! A frame carries one JSON object with a string member `type`. Frames of
//! type `terminal` carry a terminal action in the same object: a string
//! `action` and, depending on the action, `sessionId`, `input`, `cols` and
//! `rows`. Members the protocol does not know are skipped.

use vstd::prelude::*;
use crate::ident::ConnectionId;
use crate::text::str_eq;
use crate::json::{json_field, json_text_members, member, parse_json, JsonField, JsonFieldView};
use crate::message::{IgnoreReason, Reaction, ReactionView};
use crate::registry::{RegistryView, SessionRegistry};
use crate::terminal::{handle_terminal_message, handled, TerminalMessage, TerminalMessageView};

verus! {

/// A member of a terminal message.
#[derive(Clone, Copy, Debug, PartialEq, Eq, Structural)]
pub enum TerminalField {
    Action,
    SessionId,
    Input,
    Cols,
    Rows,
}

/// Why a frame was dropped.
#[derive(Clone, Copy, Debug, PartialEq, Eq, Structural)]
pub enum ProtocolError {
    /// The text is not a JSON document.
    InvalidJson,
    /// The document is not an object with a string member `type`.
    InvalidEnvelope,
    /// The member of a terminal message is of the wrong kind or out of
    /// range, or it is the action and is missing.
    InvalidField(TerminalField),
}

/// The members of a frame that the protocol reads.
#[derive(Clone, Debug, PartialEq, Eq)]
pub struct EnvelopeFields {
    pub msg_type: JsonField,
    pub action: JsonField,
    pub session_id: JsonField,
    pub input: JsonField,
    pub cols: JsonField,
    pub rows: JsonField,
}

/// What contracts say of a value of [`EnvelopeFields`]: text stands as a sequence
/// of characters.
pub struct EnvelopeFieldsView {
    pub msg_type: JsonFieldView,
    pub action: JsonFieldView,
    pub session_id: JsonFieldView,
    pub input: JsonFieldView,
    pub cols: JsonFieldView,
    pub rows: JsonFieldView,
}

impl View for EnvelopeFields {
    type V = EnvelopeFieldsView;

    open spec fn view(&self) -> EnvelopeFieldsView {
        EnvelopeFieldsView {
            msg_type: self.msg_type@,
            action: self.action@,
            session_id: self.session_id@,
            input: self.input@,
            cols: self.cols@,
            rows: self.rows@,
        }
    }
}

/// A decoded frame.
#[derive(Clone, Debug, PartialEq, Eq)]
pub enum Inbound {
    /// A frame of type `terminal`.
    Terminal(TerminalMessage),
    /// A frame of another type, which is given.
    Other(String),
}

/// What contracts say of a value of [`Inbound`]: text stands as a sequence
/// of characters.
pub enum InboundView {
    Terminal(TerminalMessageView),
    Other(Seq<char>),
}

impl View for Inbound {
    type V = InboundView;

    open spec fn view(&self) -> InboundView {
        match self {
            Inbound::Terminal(msg) => InboundView::Terminal(msg@),
            Inbound::Other(kind) => InboundView::Other(kind@),
        }
    }
}

/// An optional string member: absent or `null` is no value, a string is a
/// value, anything else is invalid.
pub open spec fn optional_text(field: JsonFieldView) -> Option<Option<Seq<char>>> {
    match field {
        JsonFieldView::Absent => Some(None),
        JsonFieldView::Null => Some(None),
        JsonFieldView::Text(text) => Some(Some(text)),
        _ => None,
    }
}

/// An optional dimension: absent or `null` is no value, an integer from 0 to
/// 65535 is a value, anything else is invalid.
pub open spec fn optional_dimension(field: JsonFieldView) -> Option<Option<u16>> {
    match field {
        JsonFieldView::Absent => Some(None),
        JsonFieldView::Null => Some(None),
        JsonFieldView::Number(Some(n)) => if n <= u16::MAX {
            Some(Some(n as u16))
        } else {
            None
        },
        _ => None,
    }
}

/// The terminal message that the members of a `terminal` frame make up.
pub open spec fn terminal_message_of(fields: EnvelopeFieldsView) -> Result<
    TerminalMessageView,
    ProtocolError,
> {
    if !(fields.action is Text) {
        Err(ProtocolError::InvalidField(TerminalField::Action))
    } else if optional_text(fields.session_id) is None {
        Err(ProtocolError::InvalidField(TerminalField::SessionId))
    } else if optional_text(fields.input) is None {
        Err(ProtocolError::InvalidField(TerminalField::Input))
    } else if optional_dimension(fields.cols) is None {
        Err(ProtocolError::InvalidField(TerminalField::Cols))
    } else if optional_dimension(fields.rows) is None {
        Err(ProtocolError::InvalidField(TerminalField::Rows))
    } else {
        Ok(
            TerminalMessageView {
                action: fields.action->Text_0,
                session_id: optional_text(fields.session_id)->0,
                input: optional_text(fields.input)->0,
                cols: optional_dimension(fields.cols)->0,
                rows: optional_dimension(fields.rows)->0,
            },
        )
    }
}

/// The frame that the members make up.
pub open spec fn inbound_of(fields: EnvelopeFieldsView) -> Result<InboundView, ProtocolError> {
    match fields.msg_type {
        JsonFieldView::Text(kind) => if kind == "terminal"@ {
            match terminal_message_of(fields) {
                Ok(msg) => Ok(InboundView::Terminal(msg)),
                Err(e) => Err(e),
            }
        } else {
            Ok(InboundView::Other(kind))
        },
        _ => Err(ProtocolError::InvalidEnvelope),
    }
}

/// The view of a decoding result.
pub open spec fn decoded(result: Result<Inbound, ProtocolError>) -> Result<
    InboundView,
    ProtocolError,
> {
    match result {
        Ok(inbound) => Ok(inbound@),
        Err(e) => Err(e),
    }
}

fn take_optional_text(field: JsonField) -> (value: Option<Option<String>>)
    ensures
        match value {
            Some(Some(text)) => optional_text(field@) == Some(Some(text@)),
            Some(None) => optional_text(field@) == Some(None::<Seq<char>>),
            None => optional_text(field@) is None,
        },
{
    match field {
        JsonField::Absent => Some(None),
        JsonField::Null => Some(None),
        JsonField::Text(text) => Some(Some(text)),
        _ => None,
    }
}

fn take_optional_dimension(field: JsonField) -> (value: Option<Option<u16>>)
    ensures
        value == optional_dimension(field@),
{
    match field {
        JsonField::Absent => Some(None),
        JsonField::Null => Some(None),
        JsonField::Number(Some(n)) => if n <= 65535 {
            Some(Some(n as u16))
        } else {
            None
        },
        _ => None,
    }
}

/// Decodes the members of a frame.
///
/// The frame must have a string `type`. A frame of type `terminal` must have
/// a string `action`; its `sessionId` and `input` are strings, its `cols` and
/// `rows` integers from 0 to 65535, and each of the four may be absent or
/// `null`. The first member that breaks these rules, in the order action,
/// sessionId, input, cols, rows, is named in the error.
pub fn decode_envelope(fields: EnvelopeFields) -> (result: Result<Inbound, ProtocolError>)
    ensures
        decoded(result) == inbound_of(fields@),
{
    let EnvelopeFields { msg_type, action, session_id, input, cols, rows } = fields;
    let kind = match msg_type {
        JsonField::Text(kind) => kind,
        _ => { return Err(ProtocolError::InvalidEnvelope); },
    };
    if !str_eq(kind.as_str(), "terminal") {
        return Ok(Inbound::Other(kind));
    }
    let action = match action {
        JsonField::Text(action) => action,
        _ => { return Err(ProtocolError::InvalidField(TerminalField::Action)); },
    };
    let session_id = match take_optional_text(session_id) {
        Some(value) => value,
        None => { return Err(ProtocolError::InvalidField(TerminalField::SessionId)); },
    };
    let input = match take_optional_text(input) {
        Some(value) => value,
        None => { return Err(ProtocolError::InvalidField(TerminalField::Input)); },
    };
    let cols = match take_optional_dimension(cols) {
        Some(value) => value,
        None => { return Err(ProtocolError::InvalidField(TerminalField::Cols)); },
    };
    let rows = match take_optional_dimension(rows) {
        Some(value) => value,
        None => { return Err(ProtocolError::InvalidField(TerminalField::Rows)); },
    };
    Ok(Inbound::Terminal(TerminalMessage { action, session_id, input, cols, rows }))
}

/// The members that the protocol reads, looked up in a document's members.
pub open spec fn envelope_fields(members: Map<Seq<char>, JsonFieldView>) -> EnvelopeFieldsView {
    EnvelopeFieldsView {
        msg_type: member(members, "type"@),
        action: member(members, "action"@),
        session_id: member(members, "sessionId"@),
        input: member(members, "input"@),
        cols: member(members, "cols"@),
        rows: member(members, "rows"@),
    }
}

/// The frame that a text holds.
pub open spec fn frame_of(text: Seq<char>) -> Result<InboundView, ProtocolError> {
    match json_text_members(text) {
        Some(members) => inbound_of(envelope_fields(members)),
        None => Err(ProtocolError::InvalidJson),
    }
}

/// Parses the text of a frame and decodes it.
pub fn parse_frame(text: &str) -> (result: Result<Inbound, ProtocolError>)
    ensures
        decoded(result) == frame_of(text@),
{
    match parse_json(text) {
        Some(doc) => decode_envelope(
            EnvelopeFields {
                msg_type: json_field(&doc, "type"),
                action: json_field(&doc, "action"),
                session_id: json_field(&doc, "sessionId"),
                input: json_field(&doc, "input"),
                cols: json_field(&doc, "cols"),
                rows: json_field(&doc, "rows"),
            },
        ),
        None => Err(ProtocolError::InvalidJson),
    }
}

/// Whether handling the frame `inbound` from `owner` in registry `before`
/// may end with registry `after` and the given outcome.
pub open spec fn frame_handled(
    before: RegistryView,
    owner: ConnectionId,
    inbound: Result<InboundView, ProtocolError>,
    after: RegistryView,
    outcome: Result<ReactionView, ProtocolError>,
) -> bool {
    match inbound {
        Err(e) => outcome == Err::<ReactionView, ProtocolError>(e) && after == before,
        Ok(InboundView::Other(_)) => outcome == Ok::<ReactionView, ProtocolError>(
            ReactionView::Ignored(IgnoreReason::UnknownMessageType),
        ) && after == before,
        Ok(InboundView::Terminal(msg)) => outcome matches Ok(reaction) && handled(
            before,
            owner,
            msg,
            after,
            reaction,
        ),
    }
}

/// The view of the outcome of handling a frame.
pub open spec fn reacted(outcome: Result<Reaction, ProtocolError>) -> Result<
    ReactionView,
    ProtocolError,
> {
    match outcome {
        Ok(reaction) => Ok(reaction@),
        Err(e) => Err(e),
    }
}

/// Handles a decoded frame from `connection_id`: a terminal message is
/// dispatched, a frame of any other type is ignored.
pub fn handle_inbound(
    registry: &mut SessionRegistry,
    connection_id: ConnectionId,
    inbound: Inbound,
) -> (reaction: Reaction)
    ensures
        frame_handled(
            old(registry)@,
            connection_id,
            Ok(inbound@),
            final(registry)@,
            Ok(reaction@),
        ),
{
    match inbound {
        Inbound::Terminal(msg) => handle_terminal_message(registry, connection_id, msg),
        Inbound::Other(_) => Reaction::Ignored(IgnoreReason::UnknownMessageType),
    }
}

/// Handles the text of one frame received from `connection_id`.
///
/// A text that is not a well-formed frame is an error and changes nothing.
/// A frame of type `terminal` is dispatched by its action; a frame of any
/// other type is ignored.
pub fn handle_websocket_message(
    text: &str,
    registry: &mut SessionRegistry,
    connection_id: ConnectionId,
) -> (outcome: Result<Reaction, ProtocolError>)
    ensures
        frame_handled(
            old(registry)@,
            connection_id,
            frame_of(text@),
            final(registry)@,
            reacted(outcome),
        ),
{
    match parse_frame(text) {
        Ok(inbound) => Ok(handle_inbound(registry, connection_id, inbound)),
        Err(e) => Err(e),
    }
}

} // verus!
