//! Messages that travel over the broadcast fabric, and the effects that the
//! session logic asks its host to carry out.

use vstd::prelude::*;
use crate::registry::Geometry;

verus! {

/// What a terminal message reports about a session.
#[derive(Clone, Copy, Debug, PartialEq, Eq, Structural)]
pub enum TerminalEvent {
    Created,
    Exists,
    NotFound,
    Output,
    Exit,
}

impl TerminalEvent {
    /// The event's name as it appears in the `action` field on the wire.
    pub open spec fn name_spec(self) -> Seq<char> {
        match self {
            TerminalEvent::Created => "created"@,
            TerminalEvent::Exists => "exists"@,
            TerminalEvent::NotFound => "not_found"@,
            TerminalEvent::Output => "output"@,
            TerminalEvent::Exit => "exit"@,
        }
    }

    /// The event's name as it appears in the `action` field on the wire.
    pub fn name(&self) -> (name: &'static str)
        ensures
            name@ == self.name_spec(),
    {
        match self {
            TerminalEvent::Created => "created",
            TerminalEvent::Exists => "exists",
            TerminalEvent::NotFound => "not_found",
            TerminalEvent::Output => "output",
            TerminalEvent::Exit => "exit",
        }
    }
}

/// Payload of a `terminal` message: an event, the session it is about and,
/// for output, the text that the session produced.
#[derive(Clone, Debug, PartialEq, Eq)]
pub struct TerminalNotice {
    pub action: TerminalEvent,
    pub session_id: String,
    pub data: Option<String>,
}

/// Payload of a file message: the exercise a file belongs to and the file.
#[derive(Clone, Debug, PartialEq, Eq)]
pub struct FileNotice {
    pub exercise: String,
    pub file: String,
}

/// A message on the broadcast fabric. Every subscribed viewer receives every
/// message.
#[derive(Clone, Debug, PartialEq, Eq)]
pub enum BroadcastMessage {
    Terminal(TerminalNotice),
    FileUpdated(FileNotice),
    FileChanged(FileNotice),
}

/// What contracts say of a value of [`TerminalNotice`]: text stands as a sequence
/// of characters.
pub struct TerminalNoticeView {
    pub action: TerminalEvent,
    pub session_id: Seq<char>,
    pub data: Option<Seq<char>>,
}

/// What contracts say of a value of [`FileNotice`]: text stands as a sequence
/// of characters.
pub struct FileNoticeView {
    pub exercise: Seq<char>,
    pub file: Seq<char>,
}

/// What contracts say of a value of [`BroadcastMessage`]: text stands as a sequence
/// of characters.
pub enum BroadcastMessageView {
    Terminal(TerminalNoticeView),
    FileUpdated(FileNoticeView),
    FileChanged(FileNoticeView),
}

impl View for TerminalNotice {
    type V = TerminalNoticeView;

    open spec fn view(&self) -> TerminalNoticeView {
        TerminalNoticeView {
            action: self.action,
            session_id: self.session_id@,
            data: match self.data {
                Some(text) => Some(text@),
                None => None,
            },
        }
    }
}

impl View for FileNotice {
    type V = FileNoticeView;

    open spec fn view(&self) -> FileNoticeView {
        FileNoticeView { exercise: self.exercise@, file: self.file@ }
    }
}

impl View for BroadcastMessage {
    type V = BroadcastMessageView;

    open spec fn view(&self) -> BroadcastMessageView {
        match self {
            BroadcastMessage::Terminal(notice) => BroadcastMessageView::Terminal(notice@),
            BroadcastMessage::FileUpdated(notice) => BroadcastMessageView::FileUpdated(notice@),
            BroadcastMessage::FileChanged(notice) => BroadcastMessageView::FileChanged(notice@),
        }
    }
}

impl BroadcastMessage {
    /// The message's kind as it appears in the `type` field on the wire.
    pub open spec fn msg_type_spec(self) -> Seq<char> {
        match self {
            BroadcastMessage::Terminal(_) => "terminal"@,
            BroadcastMessage::FileUpdated(_) => "file_updated"@,
            BroadcastMessage::FileChanged(_) => "file_changed"@,
        }
    }

    /// The message's kind as it appears in the `type` field on the wire.
    pub fn msg_type(&self) -> (name: &'static str)
        ensures
            name@ == self.msg_type_spec(),
    {
        match self {
            BroadcastMessage::Terminal(_) => "terminal",
            BroadcastMessage::FileUpdated(_) => "file_updated",
            BroadcastMessage::FileChanged(_) => "file_changed",
        }
    }
}

impl BroadcastMessageView {
    /// The members of the message's payload on the wire, each a name and a
    /// string value, in the order in which they are listed here: for a
    /// terminal message `action`, `sessionId` and, where text is attached,
    /// `data`; for a file message `exercise` and `file`.
    pub open spec fn data_members(self) -> Seq<(Seq<char>, Seq<char>)> {
        match self {
            BroadcastMessageView::Terminal(notice) => {
                let head = seq![
                    ("action"@, notice.action.name_spec()),
                    ("sessionId"@, notice.session_id),
                ];
                match notice.data {
                    Some(text) => head.push(("data"@, text)),
                    None => head,
                }
            },
            BroadcastMessageView::FileUpdated(notice) => seq![
                ("exercise"@, notice.exercise),
                ("file"@, notice.file),
            ],
            BroadcastMessageView::FileChanged(notice) => seq![
                ("exercise"@, notice.exercise),
                ("file"@, notice.file),
            ],
        }
    }
}

impl BroadcastMessage {
    /// The members of the message's payload on the wire. Together with the
    /// `type` member, whose value is [`BroadcastMessage::msg_type`], they
    /// make up the JSON object that viewers receive.
    pub fn data_members(&self) -> (members: Vec<(String, String)>)
        ensures
            members.deep_view() == self@.data_members(),
    {
        let mut members: Vec<(String, String)> = Vec::new();
        match self {
            BroadcastMessage::Terminal(notice) => {
                members.push(("action".to_owned(), notice.action.name().to_owned()));
                members.push(("sessionId".to_owned(), notice.session_id.clone()));
                match &notice.data {
                    Some(text) => {
                        members.push(("data".to_owned(), text.clone()));
                    },
                    None => {},
                }
            },
            BroadcastMessage::FileUpdated(notice) => {
                members.push(("exercise".to_owned(), notice.exercise.clone()));
                members.push(("file".to_owned(), notice.file.clone()));
            },
            BroadcastMessage::FileChanged(notice) => {
                members.push(("exercise".to_owned(), notice.exercise.clone()));
                members.push(("file".to_owned(), notice.file.clone()));
            },
        }
        assert(members.deep_view() =~= self@.data_members());
        members
    }
}

/// The terminal message that reports `action` about session `id`, with no
/// text attached.
pub open spec fn status_message(action: TerminalEvent, id: Seq<char>) -> BroadcastMessageView {
    BroadcastMessageView::Terminal(TerminalNoticeView { action, session_id: id, data: None })
}

/// The terminal message that carries `text` produced by session `id`.
pub open spec fn output_message(id: Seq<char>, text: Seq<char>) -> BroadcastMessageView {
    BroadcastMessageView::Terminal(
        TerminalNoticeView { action: TerminalEvent::Output, session_id: id, data: Some(text) },
    )
}

/// Something the host has to carry out on behalf of the session logic.
///
/// An effect on a terminal names the session by identifier and instance. The
/// host carries it out on the terminal of that instance only, and drops it
/// where it holds no such terminal.
#[derive(Clone, Debug, PartialEq, Eq)]
pub enum Effect {
    /// Open a terminal of the given size for this instance of the session,
    /// start the shell in it, and report how that went. Once the report is
    /// accepted, start pumping the terminal's output.
    Spawn { session_id: String, instance: u64, geometry: Geometry },
    /// Write the bytes to the terminal.
    Write { session_id: String, instance: u64, bytes: Vec<u8> },
    /// Resize the terminal, and report whether that took effect.
    Resize { session_id: String, instance: u64, geometry: Geometry },
    /// Terminate the process and release the terminal.
    Kill { session_id: String, instance: u64 },
    /// Publish the message on the broadcast fabric.
    Publish { message: BroadcastMessage },
}

/// What contracts say of a value of [`Effect`]: text stands as a sequence
/// of characters.
pub enum EffectView {
    Spawn { session_id: Seq<char>, instance: u64, geometry: Geometry },
    Write { session_id: Seq<char>, instance: u64, bytes: Seq<u8> },
    Resize { session_id: Seq<char>, instance: u64, geometry: Geometry },
    Kill { session_id: Seq<char>, instance: u64 },
    Publish { message: BroadcastMessageView },
}

impl View for Effect {
    type V = EffectView;

    open spec fn view(&self) -> EffectView {
        match self {
            Effect::Spawn { session_id, instance, geometry } => EffectView::Spawn {
                session_id: session_id@,
                instance: *instance,
                geometry: *geometry,
            },
            Effect::Write { session_id, instance, bytes } => EffectView::Write {
                session_id: session_id@,
                instance: *instance,
                bytes: bytes@,
            },
            Effect::Resize { session_id, instance, geometry } => EffectView::Resize {
                session_id: session_id@,
                instance: *instance,
                geometry: *geometry,
            },
            Effect::Kill { session_id, instance } => EffectView::Kill {
                session_id: session_id@,
                instance: *instance,
            },
            Effect::Publish { message } => EffectView::Publish { message: message@ },
        }
    }
}

impl DeepView for Effect {
    type V = EffectView;

    open spec fn deep_view(&self) -> EffectView {
        self@
    }
}

/// Why a well-formed message led to nothing being done.
#[derive(Clone, Copy, Debug, PartialEq, Eq, Structural)]
pub enum IgnoreReason {
    /// The envelope's type is not one this subsystem handles.
    UnknownMessageType,
    /// The terminal action is not one of the five known ones.
    UnknownAction,
    /// A field that the action requires is absent.
    MissingField,
    /// The action names a session that is not registered.
    SessionNotFound,
    /// The session cannot be created: every instance number has been used.
    RegistryExhausted,
}

/// What handling one inbound message calls for.
#[derive(Clone, Debug, PartialEq, Eq)]
pub enum Reaction {
    /// The host has to carry out the effect.
    Act(Effect),
    /// Nothing is to be done, for the given reason.
    Ignored(IgnoreReason),
}

/// What contracts say of a value of [`Reaction`]: text stands as a sequence
/// of characters.
pub enum ReactionView {
    Act(EffectView),
    Ignored(IgnoreReason),
}

impl View for Reaction {
    type V = ReactionView;

    open spec fn view(&self) -> ReactionView {
        match self {
            Reaction::Act(effect) => ReactionView::Act(effect@),
            Reaction::Ignored(reason) => ReactionView::Ignored(*reason),
        }
    }
}

/// Builds the terminal message that reports `action` about `session_id`.
pub fn send_terminal_response(
    session_id: &str,
    action: TerminalEvent,
) -> (message: BroadcastMessage)
    ensures
        message@ == status_message(action, session_id@),
{
    BroadcastMessage::Terminal(
        TerminalNotice { action, session_id: session_id.to_owned(), data: None },
    )
}

} // verus!
