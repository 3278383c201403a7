//! Handlers for the terminal actions that a viewer can send.
//!
//! Each handler updates the registry and returns what the host has to do
//! next. The host owns the terminals themselves: it spawns, writes, resizes
//! and kills as the returned effects say, and reports back how a spawn and
//! how a resize went.

use vstd::prelude::*;
use vstd::string::StrSliceExecFns;
use crate::ident::{generate_session_id, is_random_uuid_text, ConnectionId};
use crate::message::{
    send_terminal_response, status_message, BroadcastMessage, BroadcastMessageView, Effect,
    EffectView, IgnoreReason, Reaction, ReactionView, TerminalEvent,
};
use crate::registry::{
    attached, created, destroyed, owned_by, released, requested_geometry, resized, retired,
    CreateOutcome, Geometry, RegistryView, SessionRegistry, DEFAULT_COLS, DEFAULT_ROWS,
};
use crate::text::str_eq;

verus! {

/// A terminal action as a viewer sent it, before its fields are checked.
#[derive(Clone, Debug, PartialEq, Eq)]
pub struct TerminalMessage {
    pub action: String,
    pub session_id: Option<String>,
    pub input: Option<String>,
    pub cols: Option<u16>,
    pub rows: Option<u16>,
}

/// What contracts say of a value of [`TerminalMessage`]: text stands as a sequence
/// of characters.
pub struct TerminalMessageView {
    pub action: Seq<char>,
    pub session_id: Option<Seq<char>>,
    pub input: Option<Seq<char>>,
    pub cols: Option<u16>,
    pub rows: Option<u16>,
}

impl View for TerminalMessage {
    type V = TerminalMessageView;

    open spec fn view(&self) -> TerminalMessageView {
        TerminalMessageView {
            action: self.action@,
            session_id: match self.session_id {
                Some(id) => Some(id@),
                None => None,
            },
            input: match self.input {
                Some(text) => Some(text@),
                None => None,
            },
            cols: self.cols,
            rows: self.rows,
        }
    }
}

/// Why a session could not be brought up.
#[derive(Clone, Copy, Debug, PartialEq, Eq, Structural)]
pub enum SessionError {
    /// The terminal could not be opened or the shell could not be started.
    /// The session has been withdrawn from the registry.
    SpawnFailed,
    /// The instance that the terminal was spawned for is no longer
    /// registered: the session was destroyed in the meantime. The host has to
    /// dispose of the terminal it just opened.
    SessionGone,
}

/// The shell that a session runs: PowerShell on Windows, bash elsewhere.
pub fn default_shell(windows: bool) -> (shell: &'static str)
    ensures
        shell@ == if windows {
            "powershell.exe"@
        } else {
            "bash"@
        },
{
    if windows {
        "powershell.exe"
    } else {
        "bash"
    }
}

/// The value of `TERM` in the environment of a session's shell.
pub fn terminal_type() -> (name: &'static str)
    ensures
        name@ == "xterm-color"@,
{
    "xterm-color"
}

/// What `create` answers for session `id` in registry `s`.
pub open spec fn create_reaction(s: RegistryView, id: Seq<char>, geometry: Geometry) -> ReactionView {
    if s.sessions.contains_key(id) {
        ReactionView::Act(
            EffectView::Publish { message: status_message(TerminalEvent::Created, id) },
        )
    } else if s.has_room() {
        ReactionView::Act(
            EffectView::Spawn { session_id: id, instance: s.next_instance, geometry },
        )
    } else {
        ReactionView::Ignored(IgnoreReason::RegistryExhausted)
    }
}

/// What `check` answers for session `id` in registry `s`.
pub open spec fn check_reaction(s: RegistryView, id: Seq<char>) -> ReactionView {
    ReactionView::Act(
        EffectView::Publish {
            message: status_message(
                if s.sessions.contains_key(id) {
                    TerminalEvent::Exists
                } else {
                    TerminalEvent::NotFound
                },
                id,
            ),
        },
    )
}

/// What `input` answers for session `id` in registry `s`.
pub open spec fn input_reaction(s: RegistryView, id: Seq<char>, text: Seq<char>) -> ReactionView {
    if s.sessions.contains_key(id) {
        ReactionView::Act(
            EffectView::Write {
                session_id: id,
                instance: s.sessions[id].instance,
                bytes: vstd::utf8::encode_utf8(text),
            },
        )
    } else {
        ReactionView::Ignored(IgnoreReason::SessionNotFound)
    }
}

/// What `resize` answers for session `id` in registry `s`.
pub open spec fn resize_reaction(s: RegistryView, id: Seq<char>, geometry: Geometry) -> ReactionView {
    if s.sessions.contains_key(id) {
        ReactionView::Act(
            EffectView::Resize { session_id: id, instance: s.sessions[id].instance, geometry },
        )
    } else {
        ReactionView::Ignored(IgnoreReason::SessionNotFound)
    }
}

/// What `destroy` answers for session `id` in registry `s`.
pub open spec fn destroy_reaction(s: RegistryView, id: Seq<char>) -> ReactionView {
    if s.sessions.contains_key(id) {
        ReactionView::Act(
            EffectView::Kill { session_id: id, instance: s.sessions[id].instance },
        )
    } else {
        ReactionView::Ignored(IgnoreReason::SessionNotFound)
    }
}

/// What the report on a spawn for instance `instance` of session `id` is
/// answered with in registry `s`: an error for a spawn that failed; for one
/// that succeeded the announcement `created` if that instance is still
/// registered, and otherwise the notice that the session is gone.
pub open spec fn spawn_outcome(
    s: RegistryView,
    id: Seq<char>,
    instance: u64,
    started: bool,
) -> Result<BroadcastMessageView, SessionError> {
    if !started {
        Err(SessionError::SpawnFailed)
    } else if s.live(id, instance) {
        Ok(status_message(TerminalEvent::Created, id))
    } else {
        Err(SessionError::SessionGone)
    }
}

/// Creates the session `session_id` for `connection_id`, or reattaches it.
///
/// For an unseen identifier the session is registered under a new instance
/// number and the host is told to spawn its terminal, sized as requested or
/// 80 by 24 by default; once the host reports the spawn through
/// [`conclude_spawn`] the creation is announced. For a known identifier
/// nothing is spawned: the session changes owner and `created` is announced
/// at once. Where no instance number is left an unseen identifier is refused.
pub fn create_terminal_session(
    registry: &mut SessionRegistry,
    connection_id: ConnectionId,
    session_id: String,
    cols: Option<u16>,
    rows: Option<u16>,
) -> (reaction: Reaction)
    ensures
        final(registry)@ == created(
            old(registry)@,
            session_id@,
            connection_id,
            requested_geometry(cols, rows),
        ),
        reaction@ == create_reaction(old(registry)@, session_id@, requested_geometry(cols, rows)),
{
    let id = session_id.clone();
    match registry.create(session_id, connection_id, cols, rows) {
        CreateOutcome::Reattached => Reaction::Act(
            Effect::Publish {
                message: send_terminal_response(id.as_str(), TerminalEvent::Created),
            },
        ),
        CreateOutcome::Created { instance } => Reaction::Act(
            Effect::Spawn {
                session_id: id,
                instance,
                geometry: Geometry {
                    cols: match cols { Some(c) => c, None => DEFAULT_COLS },
                    rows: match rows { Some(r) => r, None => DEFAULT_ROWS },
                },
            },
        ),
        CreateOutcome::Exhausted => Reaction::Ignored(IgnoreReason::RegistryExhausted),
    }
}

/// Takes in the host's report on the spawn that [`create_terminal_session`]
/// asked for, for instance `instance` of `session_id`.
///
/// A failed spawn withdraws that instance and is an error. A spawn that
/// succeeded for an instance that is still registered is announced with
/// `created`. If the instance is no longer registered, because the session
/// was destroyed in the meantime, the registry stays as it is and the host
/// is told that the session is gone, whether or not the identifier has been
/// registered anew.
pub fn conclude_spawn(
    registry: &mut SessionRegistry,
    session_id: &str,
    instance: u64,
    started: bool,
) -> (outcome: Result<BroadcastMessage, SessionError>)
    ensures
        final(registry)@ == if started {
            old(registry)@
        } else {
            retired(old(registry)@, session_id@, instance)
        },
        match outcome {
            Ok(message) => Ok::<BroadcastMessageView, SessionError>(message@),
            Err(e) => Err(e),
        } == spawn_outcome(old(registry)@, session_id@, instance, started),
{
    if !started {
        registry.retire(session_id, instance);
        Err(SessionError::SpawnFailed)
    } else if registry.is_live(session_id, instance) {
        Ok(send_terminal_response(session_id, TerminalEvent::Created))
    } else {
        Err(SessionError::SessionGone)
    }
}

/// Answers whether `session_id` exists and, if it does, makes
/// `connection_id` its owner.
pub fn check_terminal_session(
    registry: &mut SessionRegistry,
    connection_id: ConnectionId,
    session_id: String,
) -> (reaction: Reaction)
    ensures
        final(registry)@ == attached(old(registry)@, session_id@, connection_id),
        reaction@ == check_reaction(old(registry)@, session_id@),
{
    let found = registry.attach(session_id.as_str(), connection_id);
    let action = if found { TerminalEvent::Exists } else { TerminalEvent::NotFound };
    Reaction::Act(Effect::Publish { message: send_terminal_response(session_id.as_str(), action) })
}

/// Forwards `input` to the terminal of `session_id` as its UTF-8 bytes. For
/// an unknown session nothing is written.
pub fn send_input_to_terminal(
    registry: &SessionRegistry,
    session_id: String,
    input: String,
) -> (reaction: Reaction)
    ensures
        reaction@ == input_reaction(registry@, session_id@, input@),
{
    match registry.lookup(session_id.as_str()) {
        Some(info) => Reaction::Act(
            Effect::Write {
                session_id,
                instance: info.instance,
                bytes: input.as_str().as_bytes_vec(),
            },
        ),
        None => Reaction::Ignored(IgnoreReason::SessionNotFound),
    }
}

/// Asks for the terminal of `session_id` to be resized. For an unknown
/// session nothing happens.
///
/// The registry is not changed: the new geometry is recorded once the host
/// reports through [`conclude_resize`] that the terminal has taken it.
pub fn resize_terminal(
    registry: &SessionRegistry,
    session_id: String,
    cols: u16,
    rows: u16,
) -> (reaction: Reaction)
    ensures
        reaction@ == resize_reaction(registry@, session_id@, Geometry { cols, rows }),
{
    match registry.lookup(session_id.as_str()) {
        Some(info) => Reaction::Act(
            Effect::Resize {
                session_id,
                instance: info.instance,
                geometry: Geometry { cols, rows },
            },
        ),
        None => Reaction::Ignored(IgnoreReason::SessionNotFound),
    }
}

/// Takes in the host's report on the resize that [`resize_terminal`] asked
/// for, for instance `instance` of `session_id`. Reports whether the
/// geometry was recorded.
///
/// A resize that took effect on an instance that is still registered makes
/// the geometry that of the session. A resize that the host dropped, or one
/// for an instance that is no longer registered, changes nothing.
pub fn conclude_resize(
    registry: &mut SessionRegistry,
    session_id: &str,
    instance: u64,
    cols: u16,
    rows: u16,
    applied: bool,
) -> (recorded: bool)
    ensures
        recorded == (applied && old(registry)@.live(session_id@, instance)),
        final(registry)@ == if applied {
            resized(old(registry)@, session_id@, instance, Geometry { cols, rows })
        } else {
            old(registry)@
        },
{
    if applied {
        registry.resize(session_id, instance, cols, rows)
    } else {
        false
    }
}

/// Destroys `session_id`: it leaves the registry and the host is told to
/// terminate its process. For an unknown session nothing happens.
pub fn destroy_terminal_session(
    registry: &mut SessionRegistry,
    session_id: String,
) -> (reaction: Reaction)
    ensures
        final(registry)@ == destroyed(old(registry)@, session_id@),
        reaction@ == destroy_reaction(old(registry)@, session_id@),
{
    match registry.destroy(session_id.as_str()) {
        Some(instance) => Reaction::Act(Effect::Kill { session_id, instance }),
        None => Reaction::Ignored(IgnoreReason::SessionNotFound),
    }
}

/// The effects that terminate the sessions `ids` as registry `s` holds them,
/// one `Kill` for each, in the same order.
pub open spec fn kills(s: RegistryView, ids: Seq<Seq<char>>) -> Seq<EffectView> {
    Seq::new(
        ids.len(),
        |k: int| EffectView::Kill { session_id: ids[k], instance: s.sessions[ids[k]].instance },
    )
}

/// The sessions that a sequence of effects addresses, effect by effect.
pub open spec fn targets(effects: Seq<EffectView>) -> Seq<Seq<char>> {
    Seq::new(
        effects.len(),
        |k: int|
            match effects[k] {
                EffectView::Spawn { session_id, .. } => session_id,
                EffectView::Write { session_id, .. } => session_id,
                EffectView::Resize { session_id, .. } => session_id,
                EffectView::Kill { session_id, .. } => session_id,
                EffectView::Publish { .. } => Seq::empty(),
            },
    )
}

/// Whether `effects` and registry `after` are what the disconnect of `owner`
/// makes of registry `before`: every session that `owner` owned has left the
/// registry and is addressed by exactly one effect, a `Kill` of the instance
/// that was registered; there is no other effect, and sessions of other
/// owners are untouched.
pub open spec fn cleaned_up(
    before: RegistryView,
    owner: ConnectionId,
    after: RegistryView,
    effects: Seq<EffectView>,
) -> bool {
    &&& after == released(before, owner)
    &&& effects == kills(before, targets(effects))
    &&& targets(effects).no_duplicates()
    &&& targets(effects).to_set() == owned_by(before, owner)
}

/// Destroys every session that `connection_id` owns, as is due when the
/// connection goes away.
///
/// Each owned session leaves the registry and gets exactly one `Kill`;
/// sessions of other owners are untouched.
pub fn cleanup_terminal_sessions(
    registry: &mut SessionRegistry,
    connection_id: ConnectionId,
) -> (effects: Vec<Effect>)
    ensures
        cleaned_up(old(registry)@, connection_id, final(registry)@, effects.deep_view()),
{
    let ids = registry.drain_by_owner(connection_id);
    let ghost before = registry@;
    let ghost names = ids.deep_view();
    let mut effects: Vec<Effect> = Vec::new();
    let mut i: usize = 0;
    assert(before.sessions.remove_keys(names.take(0).to_set()) =~= before.sessions);
    assert(effects.deep_view() =~= kills(before, names.take(0)));
    while i < ids.len()
        invariant
            i <= ids.len(),
            names == ids.deep_view(),
            names.no_duplicates(),
            names.to_set() == owned_by(before, connection_id),
            registry@.sessions == before.sessions.remove_keys(names.take(i as int).to_set()),
            registry@.next_instance == before.next_instance,
            effects.deep_view() == kills(before, names.take(i as int)),
        decreases ids.len() - i,
    {
        let id = ids[i].clone();
        proof {
            assert(names[i as int] == id@);
            assert(names.to_set().contains(id@));
            assert(!names.take(i as int).to_set().contains(id@)) by {
                if names.take(i as int).to_set().contains(id@) {
                    let k = choose|k: int| 0 <= k < i && names.take(i as int)[k] == id@;
                    assert(names[k] == names[i as int]);
                }
            }
            let prev = names.take(i as int);
            let next = names.take(i + 1);
            assert(next =~= prev.push(id@));
            assert forall|x: Seq<char>| next.to_set().contains(x) <==> prev.to_set().insert(
                id@,
            ).contains(x) by {
                if next.to_set().contains(x) {
                    let k = choose|k: int| 0 <= k < next.len() && next[k] == x;
                    if k < i {
                        assert(prev[k] == x);
                    }
                }
                if prev.to_set().contains(x) {
                    let k = choose|k: int| 0 <= k < prev.len() && prev[k] == x;
                    assert(next[k] == x);
                }
                if x == id@ {
                    assert(next[i as int] == x);
                }
            }
            assert(next.to_set() =~= prev.to_set().insert(id@));
            assert(before.sessions.remove_keys(next.to_set()) =~= before.sessions.remove_keys(
                prev.to_set(),
            ).remove(id@));
            assert(registry@.sessions[id@] == before.sessions[id@]);
        }
        let ghost done = effects.deep_view();
        match destroy_terminal_session(registry, id) {
            Reaction::Act(effect) => {
                effects.push(effect);
            },
            Reaction::Ignored(_) => {
                assert(false);
            },
        }
        assert(effects.deep_view() =~= done.push(
            EffectView::Kill {
                session_id: names[i as int],
                instance: before.sessions[names[i as int]].instance,
            },
        ));
        assert(effects.deep_view() =~= kills(before, names.take(i + 1)));
        i += 1;
    }
    proof {
        assert(names.take(ids.len() as int) =~= names);
        assert(targets(kills(before, names)) =~= names);
        assert(registry@ == released(before, connection_id));
    }
    effects
}

/// Whether the message asks to create a session without naming it, so that
/// an identifier has to be drawn for it.
pub open spec fn needs_generated_id(msg: TerminalMessageView) -> bool {
    msg.action == "create"@ && msg.session_id is None
}

/// What a terminal message calls for in registry `s`. `generated` is the
/// identifier used where the message asks to create a session without
/// naming it.
pub open spec fn terminal_reaction(
    s: RegistryView,
    msg: TerminalMessageView,
    generated: Seq<char>,
) -> ReactionView {
    if msg.action == "create"@ {
        let id = match msg.session_id {
            Some(id) => id,
            None => generated,
        };
        create_reaction(s, id, requested_geometry(msg.cols, msg.rows))
    } else if msg.action == "check"@ {
        match msg.session_id {
            Some(id) => check_reaction(s, id),
            None => ReactionView::Ignored(IgnoreReason::MissingField),
        }
    } else if msg.action == "input"@ {
        match (msg.session_id, msg.input) {
            (Some(id), Some(text)) => input_reaction(s, id, text),
            _ => ReactionView::Ignored(IgnoreReason::MissingField),
        }
    } else if msg.action == "resize"@ {
        match (msg.session_id, msg.cols, msg.rows) {
            (Some(id), Some(cols), Some(rows)) => resize_reaction(s, id, Geometry { cols, rows }),
            _ => ReactionView::Ignored(IgnoreReason::MissingField),
        }
    } else if msg.action == "destroy"@ {
        match msg.session_id {
            Some(id) => destroy_reaction(s, id),
            None => ReactionView::Ignored(IgnoreReason::MissingField),
        }
    } else {
        ReactionView::Ignored(IgnoreReason::UnknownAction)
    }
}

/// The registry after a terminal message from `owner` was handled in
/// registry `s`. `generated` is as in [`terminal_reaction`].
pub open spec fn terminal_registry(
    s: RegistryView,
    owner: ConnectionId,
    msg: TerminalMessageView,
    generated: Seq<char>,
) -> RegistryView {
    if msg.action == "create"@ {
        let id = match msg.session_id {
            Some(id) => id,
            None => generated,
        };
        created(s, id, owner, requested_geometry(msg.cols, msg.rows))
    } else if msg.action == "check"@ {
        match msg.session_id {
            Some(id) => attached(s, id, owner),
            None => s,
        }
    } else if msg.action == "input"@ {
        s
    } else if msg.action == "resize"@ {
        s
    } else if msg.action == "destroy"@ {
        match msg.session_id {
            Some(id) => destroyed(s, id),
            None => s,
        }
    } else {
        s
    }
}

/// Whether handling `msg` from `owner` in registry `before` may end with
/// registry `after` and reaction `reaction`. Only where an identifier has to
/// be drawn is there more than one such end: one for each random UUID, whose
/// text is the identifier.
pub open spec fn handled(
    before: RegistryView,
    owner: ConnectionId,
    msg: TerminalMessageView,
    after: RegistryView,
    reaction: ReactionView,
) -> bool {
    if needs_generated_id(msg) {
        exists|generated: Seq<char>|
            is_random_uuid_text(generated) && reaction == terminal_reaction(
                before,
                msg,
                generated,
            ) && after == #[trigger] terminal_registry(before, owner, msg, generated)
    } else {
        reaction == terminal_reaction(before, msg, Seq::empty()) && after == terminal_registry(
            before,
            owner,
            msg,
            Seq::empty(),
        )
    }
}

/// Handles one terminal message from `connection_id`.
///
/// `create` may omit the session identifier, in which case the text of a
/// random UUID is drawn for it; `check` and `destroy` require it; `input`
/// requires it and the text; `resize` requires it and both dimensions. A
/// message that lacks a required field, or whose action is unknown, changes
/// nothing.
pub fn handle_terminal_message(
    registry: &mut SessionRegistry,
    connection_id: ConnectionId,
    msg: TerminalMessage,
) -> (reaction: Reaction)
    ensures
        handled(old(registry)@, connection_id, msg@, final(registry)@, reaction@),
{
    let ghost before = registry@;
    let TerminalMessage { action, session_id, input, cols, rows } = msg;
    let action = action.as_str();
    if str_eq(action, "create") {
        let id = match session_id {
            Some(id) => id,
            None => generate_session_id(),
        };
        let ghost drawn = id@;
        let reaction = create_terminal_session(registry, connection_id, id, cols, rows);
        proof {
            assert(reaction@ == terminal_reaction(before, msg@, drawn));
            assert(registry@ == terminal_registry(before, connection_id, msg@, drawn));
        }
        reaction
    } else if str_eq(action, "check") {
        match session_id {
            Some(id) => check_terminal_session(registry, connection_id, id),
            None => Reaction::Ignored(IgnoreReason::MissingField),
        }
    } else if str_eq(action, "input") {
        match (session_id, input) {
            (Some(id), Some(text)) => send_input_to_terminal(registry, id, text),
            _ => Reaction::Ignored(IgnoreReason::MissingField),
        }
    } else if str_eq(action, "resize") {
        match (session_id, cols, rows) {
            (Some(id), Some(cols), Some(rows)) => resize_terminal(registry, id, cols, rows),
            _ => Reaction::Ignored(IgnoreReason::MissingField),
        }
    } else if str_eq(action, "destroy") {
        match session_id {
            Some(id) => destroy_terminal_session(registry, id),
            None => Reaction::Ignored(IgnoreReason::MissingField),
        }
    } else {
        Reaction::Ignored(IgnoreReason::UnknownAction)
    }
}

} // verus!
