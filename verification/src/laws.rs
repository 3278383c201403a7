//! What holds of the session logic across several operations.

use vstd::prelude::*;
use crate::ident::ConnectionId;
use crate::message::{
    output_message, status_message, BroadcastMessageView, EffectView, IgnoreReason, ReactionView,
    TerminalEvent,
};
use crate::pump::{decoded_text, pump_registry, pump_step, PumpStepView};
use crate::registry::{
    attached, created, destroyed, owned_by, released, requested_geometry, resized, retired,
    Geometry, RegistryView, SessionInfo,
};
use crate::terminal::{
    check_reaction, create_reaction, destroy_reaction, input_reaction, resize_reaction,
    spawn_outcome, SessionError,
};

verus! {

/// One `create` request for a session: who asks, and for what size.
pub struct CreateRequest {
    pub owner: ConnectionId,
    pub cols: Option<u16>,
    pub rows: Option<u16>,
}

impl CreateRequest {
    pub open spec fn geometry(self) -> Geometry {
        requested_geometry(self.cols, self.rows)
    }
}

/// The registry after the given `create` requests for session `id` have been
/// handled one after the other.
pub open spec fn after_creates(
    s: RegistryView,
    id: Seq<char>,
    requests: Seq<CreateRequest>,
) -> RegistryView
    decreases requests.len(),
{
    if requests.len() == 0 {
        s
    } else {
        created(
            after_creates(s, id, requests.drop_last()),
            id,
            requests.last().owner,
            requests.last().geometry(),
        )
    }
}

/// However many `create` requests arrive for one session, in whatever order
/// they are served, exactly one of them spawns a terminal: the first, and
/// only if the session was not registered before. Every other request is
/// answered as a reattach, and after each request the session is registered
/// to the connection that sent it. This holds as long as an instance number
/// is left for a session that has to be registered.
pub proof fn lemma_create_spawns_once(
    s: RegistryView,
    id: Seq<char>,
    requests: Seq<CreateRequest>,
    k: int,
)
    requires
        0 <= k < requests.len(),
        s.sessions.contains_key(id) || s.has_room(),
    ensures
        create_reaction(after_creates(s, id, requests.take(k)), id, requests[k].geometry()) == if k
            == 0 && !s.sessions.contains_key(id) {
            ReactionView::Act(
                EffectView::Spawn {
                    session_id: id,
                    instance: s.next_instance,
                    geometry: requests[k].geometry(),
                },
            )
        } else {
            ReactionView::Act(
                EffectView::Publish { message: status_message(TerminalEvent::Created, id) },
            )
        },
        after_creates(s, id, requests.take(k + 1)).sessions.contains_key(id),
        after_creates(s, id, requests.take(k + 1)).sessions[id].owner == requests[k].owner,
    decreases k,
{
    let upto = requests.take(k + 1);
    assert(upto.drop_last() =~= requests.take(k));
    assert(upto.last() == requests[k]);
    if k == 0 {
        assert(requests.take(0).len() == 0);
    } else {
        lemma_create_spawns_once(s, id, requests, k - 1);
    }
}

/// Once a session is destroyed it no longer exists: a check reports
/// `not_found`, and input, resize and a second destroy are ignored and leave
/// the registry as it is.
pub proof fn lemma_destroyed_session_is_gone(
    s: RegistryView,
    id: Seq<char>,
    owner: ConnectionId,
    text: Seq<char>,
    geometry: Geometry,
    instance: u64,
)
    ensures
        !destroyed(s, id).sessions.contains_key(id),
        attached(destroyed(s, id), id, owner) == destroyed(s, id),
        check_reaction(destroyed(s, id), id) == ReactionView::Act(
            EffectView::Publish { message: status_message(TerminalEvent::NotFound, id) },
        ),
        input_reaction(destroyed(s, id), id, text) == ReactionView::Ignored(
            IgnoreReason::SessionNotFound,
        ),
        resize_reaction(destroyed(s, id), id, geometry) == ReactionView::Ignored(
            IgnoreReason::SessionNotFound,
        ),
        resized(destroyed(s, id), id, instance, geometry) == destroyed(s, id),
        destroy_reaction(destroyed(s, id), id) == ReactionView::Ignored(
            IgnoreReason::SessionNotFound,
        ),
        destroyed(destroyed(s, id), id) == destroyed(s, id),
{
    assert(destroyed(destroyed(s, id), id).sessions =~= destroyed(s, id).sessions);
}

/// When a connection goes away, exactly the sessions it owns at that moment
/// are destroyed: none of them is left, and every session of another owner
/// is left as it was.
pub proof fn lemma_disconnect_releases_owned(s: RegistryView, owner: ConnectionId, id: Seq<char>)
    ensures
        released(s, owner).sessions.contains_key(id) <==> s.sessions.contains_key(id)
            && s.sessions[id].owner != owner,
        released(s, owner).sessions.contains_key(id) ==> released(s, owner).sessions[id]
            == s.sessions[id],
        owned_by(released(s, owner), owner) == Set::<Seq<char>>::empty(),
{
    assert(owned_by(released(s, owner), owner) =~= Set::<Seq<char>>::empty());
}

/// A session that a second connection took over, by `create` or by `check`,
/// survives the disconnect of the connection that created it, and still
/// belongs to the second.
pub proof fn lemma_reattached_session_survives(
    s: RegistryView,
    id: Seq<char>,
    first: ConnectionId,
    second: ConnectionId,
    geometry: Geometry,
    again: Geometry,
)
    requires
        first != second,
        s.sessions.contains_key(id) || s.has_room(),
    ensures
        released(attached(created(s, id, first, geometry), id, second), first).sessions.contains_key(
            id,
        ),
        released(attached(created(s, id, first, geometry), id, second), first).sessions[id].owner
            == second,
        released(
            created(created(s, id, first, geometry), id, second, again),
            first,
        ).sessions.contains_key(id),
        released(created(created(s, id, first, geometry), id, second, again), first).sessions[id].owner
            == second,
{
}

/// Resizing is idempotent: a resize that took effect twice leaves the
/// session with exactly the geometry that it leaves after taking effect
/// once, and a second request for it is answered as the first.
pub proof fn lemma_resize_idempotent(
    s: RegistryView,
    id: Seq<char>,
    instance: u64,
    geometry: Geometry,
)
    ensures
        resized(resized(s, id, instance, geometry), id, instance, geometry) == resized(
            s,
            id,
            instance,
            geometry,
        ),
        resize_reaction(resized(s, id, instance, geometry), id, geometry) == resize_reaction(
            s,
            id,
            geometry,
        ),
        s.live(id, instance) ==> resized(s, id, instance, geometry).sessions[id].geometry
            == geometry,
{
    assert(resized(resized(s, id, instance, geometry), id, instance, geometry).sessions
        =~= resized(s, id, instance, geometry).sessions);
}

/// Whether every registered session has an instance number below the one
/// that the next registration takes.
pub open spec fn instances_issued(s: RegistryView) -> bool {
    forall|id: Seq<char>|
        s.sessions.contains_key(id) ==> (#[trigger] s.sessions[id]).instance < s.next_instance
}

/// Instance numbers are never used twice. In a registry with no sessions,
/// and after every operation on a registry of which this holds, every
/// registered session has a number below the one that comes next; so a new
/// registration takes a number that no session has, and the number that
/// comes next never goes down.
pub proof fn lemma_instances_are_fresh(
    s: RegistryView,
    id: Seq<char>,
    owner: ConnectionId,
    geometry: Geometry,
    instance: u64,
    other: Seq<char>,
)
    requires
        instances_issued(s),
    ensures
        instances_issued(RegistryView { sessions: Map::empty(), next_instance: 0 }),
        instances_issued(created(s, id, owner, geometry)),
        instances_issued(attached(s, id, owner)),
        instances_issued(resized(s, id, instance, geometry)),
        instances_issued(destroyed(s, id)),
        instances_issued(retired(s, id, instance)),
        instances_issued(released(s, owner)),
        s.next_instance <= created(s, id, owner, geometry).next_instance,
        !s.sessions.contains_key(id) && s.has_room() && s.sessions.contains_key(other) ==> created(
            s,
            id,
            owner,
            geometry,
        ).sessions[id].instance != s.sessions[other].instance,
{
    let c = created(s, id, owner, geometry);
    assert forall|x: Seq<char>| c.sessions.contains_key(x) implies (#[trigger] c.sessions[x]).instance
        < c.next_instance by {
        if x != id {
            assert(s.sessions.contains_key(x));
            assert(s.sessions[x].instance < s.next_instance);
        } else if s.sessions.contains_key(id) {
            assert(s.sessions[id].instance < s.next_instance);
        }
    }
    let a = attached(s, id, owner);
    assert forall|x: Seq<char>| a.sessions.contains_key(x) implies (#[trigger] a.sessions[x]).instance
        < a.next_instance by {
        if x != id {
            assert(s.sessions.contains_key(x));
            assert(s.sessions[x].instance < s.next_instance);
        } else if s.sessions.contains_key(id) {
            assert(s.sessions[id].instance < s.next_instance);
        }
    }
    let r = resized(s, id, instance, geometry);
    assert forall|x: Seq<char>| r.sessions.contains_key(x) implies (#[trigger] r.sessions[x]).instance
        < r.next_instance by {
        if x != id {
            assert(s.sessions.contains_key(x));
            assert(s.sessions[x].instance < s.next_instance);
        } else if s.sessions.contains_key(id) {
            assert(s.sessions[id].instance < s.next_instance);
        }
    }
    let d = destroyed(s, id);
    assert forall|x: Seq<char>| d.sessions.contains_key(x) implies (#[trigger] d.sessions[x]).instance
        < d.next_instance by {
        assert(s.sessions[x].instance < s.next_instance);
    }
    let t = retired(s, id, instance);
    assert forall|x: Seq<char>| t.sessions.contains_key(x) implies (#[trigger] t.sessions[x]).instance
        < t.next_instance by {
        assert(s.sessions[x].instance < s.next_instance);
    }
    let l = released(s, owner);
    assert forall|x: Seq<char>| l.sessions.contains_key(x) implies (#[trigger] l.sessions[x]).instance
        < l.next_instance by {
        assert(s.sessions[x].instance < s.next_instance);
    }
    if s.sessions.contains_key(other) {
        assert(s.sessions[other].instance < s.next_instance);
    }
}

/// Whatever concerns an instance that is not registered changes nothing:
/// what its pump reads is not published as output and leaves the registry
/// as it is, the report on its spawn is answered with `SessionGone` or with
/// `SpawnFailed`, and neither a failed spawn nor a resize that took effect
/// touches the registry.
pub proof fn lemma_stale_instance_changes_nothing(
    s: RegistryView,
    id: Seq<char>,
    instance: u64,
    bytes: Seq<u8>,
    geometry: Geometry,
)
    requires
        !s.live(id, instance),
    ensures
        pump_registry(s, id, instance, bytes) == s,
        !(pump_step(s, id, instance, bytes) is Forward),
        pump_step(s, id, instance, bytes) == if bytes.len() > 0 {
            PumpStepView::Discard
        } else if s.sessions.contains_key(id) {
            PumpStepView::Finish(None)
        } else {
            PumpStepView::Finish(Some(status_message(TerminalEvent::Exit, id)))
        },
        spawn_outcome(s, id, instance, true) == Err::<BroadcastMessageView, SessionError>(
            SessionError::SessionGone,
        ),
        retired(s, id, instance) == s,
        resized(s, id, instance, geometry) == s,
{
}

/// After a session is destroyed no output of it is published: whatever its
/// pump still reads is discarded, the registry stays as it is, and the end
/// of its terminal is announced with `exit` and nothing else.
pub proof fn lemma_no_output_after_destroy(
    s: RegistryView,
    id: Seq<char>,
    instance: u64,
    bytes: Seq<u8>,
)
    ensures
        pump_step(destroyed(s, id), id, instance, bytes) == if bytes.len() > 0 {
            PumpStepView::Discard
        } else {
            PumpStepView::Finish(Some(status_message(TerminalEvent::Exit, id)))
        },
        pump_registry(destroyed(s, id), id, instance, bytes) == destroyed(s, id),
{
}

/// A session that is registered anew under the identifier of a destroyed
/// one is another session. It takes another instance number; nothing that
/// still arrives for the old instance touches it: what the old pump reads is
/// not published and the end of the old terminal passes in silence, the
/// report on the old spawn is answered with `SessionGone` and a failure of
/// the old spawn withdraws nothing. The report on the new spawn is answered
/// with `created`, and the end of the new terminal ends the session.
pub proof fn lemma_old_instance_spares_new_session(
    s: RegistryView,
    id: Seq<char>,
    first: ConnectionId,
    second: ConnectionId,
    geometry: Geometry,
    again: Geometry,
    bytes: Seq<u8>,
)
    requires
        !s.sessions.contains_key(id),
        s.next_instance + 1 < u64::MAX,
    ensures
        ({
            let old_instance = s.next_instance;
            let new_instance = (s.next_instance + 1) as u64;
            let now = created(destroyed(created(s, id, first, geometry), id), id, second, again);
            &&& now.sessions[id] == SessionInfo {
                owner: second,
                geometry: again,
                instance: new_instance,
            }
            &&& now.live(id, new_instance)
            &&& !now.live(id, old_instance)
            &&& pump_registry(now, id, old_instance, bytes) == now
            &&& pump_step(now, id, old_instance, bytes) == if bytes.len() > 0 {
                PumpStepView::Discard
            } else {
                PumpStepView::Finish(None)
            }
            &&& spawn_outcome(now, id, old_instance, true) == Err::<
                BroadcastMessageView,
                SessionError,
            >(SessionError::SessionGone)
            &&& retired(now, id, old_instance) == now
            &&& spawn_outcome(now, id, new_instance, true) == Ok::<
                BroadcastMessageView,
                SessionError,
            >(status_message(TerminalEvent::Created, id))
            &&& !pump_registry(now, id, new_instance, Seq::empty()).sessions.contains_key(id)
        }),
{
}

/// The messages that the pump on instance `instance` of session `id`
/// publishes over a run of reads in registry `s`, in order, up to and
/// including the read that ends the run.
pub open spec fn pump_trace(
    s: RegistryView,
    id: Seq<char>,
    instance: u64,
    reads: Seq<Seq<u8>>,
) -> Seq<BroadcastMessageView>
    decreases reads.len(),
{
    if reads.len() == 0 {
        Seq::empty()
    } else {
        match pump_step(s, id, instance, reads.first()) {
            PumpStepView::Forward(message) => seq![message] + pump_trace(
                s,
                id,
                instance,
                reads.drop_first(),
            ),
            PumpStepView::Discard => pump_trace(s, id, instance, reads.drop_first()),
            PumpStepView::Finish(Some(message)) => seq![message],
            PumpStepView::Finish(None) => Seq::empty(),
        }
    }
}

/// The text that a message carries; none where it carries no text.
pub open spec fn carried_text(message: BroadcastMessageView) -> Seq<char> {
    match message {
        BroadcastMessageView::Terminal(notice) => match notice.data {
            Some(text) => text,
            None => Seq::empty(),
        },
        _ => Seq::empty(),
    }
}

/// The texts that the messages carry, joined in the order of the messages.
pub open spec fn published_text(messages: Seq<BroadcastMessageView>) -> Seq<char>
    decreases messages.len(),
{
    if messages.len() == 0 {
        Seq::empty()
    } else {
        carried_text(messages.first()) + published_text(messages.drop_first())
    }
}

/// The bytes of the chunks, joined in the order of the chunks.
pub open spec fn stream(chunks: Seq<Seq<u8>>) -> Seq<u8>
    decreases chunks.len(),
{
    if chunks.len() == 0 {
        Seq::empty()
    } else {
        chunks.first() + stream(chunks.drop_first())
    }
}

proof fn lemma_decode_concat(first: Seq<u8>, second: Seq<u8>)
    requires
        vstd::utf8::valid_utf8(first),
        vstd::utf8::valid_utf8(second),
    ensures
        vstd::utf8::valid_utf8(first + second),
        vstd::utf8::decode_utf8(first + second) == vstd::utf8::decode_utf8(first)
            + vstd::utf8::decode_utf8(second),
{
    vstd::utf8::valid_utf8_concat(first, second);
    vstd::utf8::decode_utf8_encode_utf8(first);
    vstd::utf8::decode_utf8_encode_utf8(second);
    vstd::utf8::decode_utf8_encode_utf8(first + second);
    let a = vstd::utf8::decode_utf8(first);
    let b = vstd::utf8::decode_utf8(second);
    lemma_encode_concat(a, b);
    vstd::utf8::encode_utf8_decode_utf8(a + b);
}

proof fn lemma_encode_concat(a: Seq<char>, b: Seq<char>)
    ensures
        vstd::utf8::encode_utf8(a + b) == vstd::utf8::encode_utf8(a) + vstd::utf8::encode_utf8(b),
    decreases a.len(),
{
    if a.len() == 0 {
        assert(a + b =~= b);
        assert(vstd::utf8::encode_utf8(a) =~= Seq::<u8>::empty());
        assert(vstd::utf8::encode_utf8(a) + vstd::utf8::encode_utf8(b) =~= vstd::utf8::encode_utf8(
            b,
        ));
    } else {
        assert((a + b).drop_first() =~= a.drop_first() + b);
        assert((a + b).first() == a.first());
        lemma_encode_concat(a.drop_first(), b);
        assert(vstd::utf8::encode_utf8(a + b) =~= vstd::utf8::encode_utf8(a)
            + vstd::utf8::encode_utf8(b));
    }
}

/// A pump keeps the order of what it reads: as long as its instance is
/// registered and reads deliver bytes, each read becomes one `output` message
/// for the pump's session, the messages come in the order of the reads, and
/// the registry stays as it is.
pub proof fn lemma_pump_keeps_order(
    s: RegistryView,
    id: Seq<char>,
    instance: u64,
    reads: Seq<Seq<u8>>,
)
    requires
        s.live(id, instance),
        forall|k: int| 0 <= k < reads.len() ==> (#[trigger] reads[k]).len() > 0,
    ensures
        pump_trace(s, id, instance, reads) == Seq::new(
            reads.len(),
            |k: int| output_message(id, decoded_text(reads[k])),
        ),
        forall|k: int|
            0 <= k < reads.len() ==> pump_registry(s, id, instance, #[trigger] reads[k]) == s,
    decreases reads.len(),
{
    let expected = Seq::new(reads.len(), |k: int| output_message(id, decoded_text(reads[k])));
    if reads.len() == 0 {
        assert(pump_trace(s, id, instance, reads) =~= expected);
    } else {
        let rest = reads.drop_first();
        assert forall|k: int| 0 <= k < rest.len() implies (#[trigger] rest[k]).len() > 0 by {
            assert(rest[k] == reads[k + 1]);
        }
        lemma_pump_keeps_order(s, id, instance, rest);
        assert(reads.first() == reads[0]);
        assert(pump_trace(s, id, instance, reads) =~= expected);
    }
}

/// Where the pump's instance is registered and every chunk read from its
/// terminal is valid UTF-8, the texts of the published messages, joined in
/// order, are exactly the text that the terminal's byte stream encodes.
pub proof fn lemma_output_reproduces_stream(
    s: RegistryView,
    id: Seq<char>,
    instance: u64,
    chunks: Seq<Seq<u8>>,
)
    requires
        s.live(id, instance),
        forall|k: int|
            0 <= k < chunks.len() ==> (#[trigger] chunks[k]).len() > 0 && vstd::utf8::valid_utf8(
                chunks[k],
            ),
    ensures
        vstd::utf8::valid_utf8(stream(chunks)),
        published_text(pump_trace(s, id, instance, chunks)) == vstd::utf8::decode_utf8(
            stream(chunks),
        ),
    decreases chunks.len(),
{
    if chunks.len() == 0 {
        assert(vstd::utf8::decode_utf8(Seq::<u8>::empty()) =~= Seq::<char>::empty());
    } else {
        let rest = chunks.drop_first();
        assert forall|k: int| 0 <= k < rest.len() implies (#[trigger] rest[k]).len() > 0
            && vstd::utf8::valid_utf8(rest[k]) by {
            assert(rest[k] == chunks[k + 1]);
        }
        lemma_output_reproduces_stream(s, id, instance, rest);
        assert(chunks.first() == chunks[0]);
        lemma_decode_concat(chunks.first(), stream(rest));
        let head = output_message(id, decoded_text(chunks.first()));
        let trace = pump_trace(s, id, instance, chunks);
        assert(trace == seq![head] + pump_trace(s, id, instance, rest));
        assert(trace.first() == head);
        assert(trace.drop_first() =~= pump_trace(s, id, instance, rest));
    }
}

} // verus!
