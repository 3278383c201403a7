//! The session registry: which sessions exist, who owns each, and how large
//! its terminal is.
//!
//! The registry is the single source of truth for session existence and
//! ownership. Its abstract state is a [`RegistryView`]: a map from session
//! identifier to [`SessionInfo`] and the number that the next registration
//! takes. Every operation is specified as a function on that state.
//!
//! An identifier can be registered, destroyed and registered again. To tell
//! such sessions apart each registration takes an instance number that no
//! earlier registration had. Whatever serves one session, its terminal and
//! the pump on it, is known by identifier and instance.

use vstd::prelude::*;
use crate::ident::ConnectionId;
use crate::text::str_eq;

verus! {

/// Columns of a terminal whose creator did not ask for a width.
pub const DEFAULT_COLS: u16 = 80;

/// Rows of a terminal whose creator did not ask for a height.
pub const DEFAULT_ROWS: u16 = 24;

/// Size of a terminal in character cells.
#[derive(Clone, Copy, Debug, PartialEq, Eq, Structural)]
pub struct Geometry {
    pub cols: u16,
    pub rows: u16,
}

/// What the registry records about one session: the connection that last
/// created or attached to it, the size of its terminal, and the number of
/// the registration that made it.
#[derive(Clone, Copy, Debug, PartialEq, Eq, Structural)]
pub struct SessionInfo {
    pub owner: ConnectionId,
    pub geometry: Geometry,
    pub instance: u64,
}

/// One registered session.
struct TerminalSession {
    session_id: String,
    connection_id: ConnectionId,
    geometry: Geometry,
    instance: u64,
}

/// How a `create` request was resolved.
#[derive(Clone, Copy, Debug, PartialEq, Eq, Structural)]
pub enum CreateOutcome {
    /// The identifier was unseen: a session was registered under the given
    /// instance number and its terminal has to be spawned.
    Created { instance: u64 },
    /// The identifier was already registered: only its owner changed.
    Reattached,
    /// The identifier was unseen but every instance number has been used:
    /// nothing was registered.
    Exhausted,
}

/// The abstract state of a registry.
pub struct RegistryView {
    /// The registered sessions by identifier.
    pub sessions: Map<Seq<char>, SessionInfo>,
    /// The instance number that the next registration takes.
    pub next_instance: u64,
}

impl TerminalSession {
    spec fn info(&self) -> SessionInfo {
        SessionInfo {
            owner: self.connection_id,
            geometry: self.geometry,
            instance: self.instance,
        }
    }
}

/// The geometry a `create` request asks for, with the defaults filled in.
pub open spec fn requested_geometry(cols: Option<u16>, rows: Option<u16>) -> Geometry {
    Geometry {
        cols: match cols { Some(c) => c, None => DEFAULT_COLS },
        rows: match rows { Some(r) => r, None => DEFAULT_ROWS },
    }
}

impl RegistryView {
    /// Whether identifier `id` is registered, and by the registration
    /// numbered `instance`.
    pub open spec fn live(self, id: Seq<char>, instance: u64) -> bool {
        self.sessions.contains_key(id) && self.sessions[id].instance == instance
    }

    /// Whether an unseen identifier can still be registered: an instance
    /// number is left for it.
    pub open spec fn has_room(self) -> bool {
        self.next_instance < u64::MAX
    }
}

/// The registry after `create`: an unseen identifier is registered with the
/// requested geometry under the next instance number, where one is left; a
/// known one only changes owner.
pub open spec fn created(
    s: RegistryView,
    id: Seq<char>,
    owner: ConnectionId,
    geometry: Geometry,
) -> RegistryView {
    if s.sessions.contains_key(id) {
        RegistryView {
            sessions: s.sessions.insert(id, SessionInfo { owner, ..s.sessions[id] }),
            ..s
        }
    } else if s.has_room() {
        RegistryView {
            sessions: s.sessions.insert(
                id,
                SessionInfo { owner, geometry, instance: s.next_instance },
            ),
            next_instance: (s.next_instance + 1) as u64,
        }
    } else {
        s
    }
}

/// The registry after an attach: a known session changes owner, an unknown
/// identifier changes nothing.
pub open spec fn attached(s: RegistryView, id: Seq<char>, owner: ConnectionId) -> RegistryView {
    if s.sessions.contains_key(id) {
        RegistryView {
            sessions: s.sessions.insert(id, SessionInfo { owner, ..s.sessions[id] }),
            ..s
        }
    } else {
        s
    }
}

/// The registry after a resize of instance `instance` of session `id` took
/// effect: that session takes the new geometry. Where the identifier is not
/// registered, or by another registration, nothing changes.
pub open spec fn resized(
    s: RegistryView,
    id: Seq<char>,
    instance: u64,
    geometry: Geometry,
) -> RegistryView {
    if s.live(id, instance) {
        RegistryView {
            sessions: s.sessions.insert(id, SessionInfo { geometry, ..s.sessions[id] }),
            ..s
        }
    } else {
        s
    }
}

/// The registry after a destroy: the identifier is no longer registered.
pub open spec fn destroyed(s: RegistryView, id: Seq<char>) -> RegistryView {
    RegistryView { sessions: s.sessions.remove(id), ..s }
}

/// The registry after instance `instance` of session `id` came to its end:
/// that session is no longer registered. Where the identifier is not
/// registered, or by another registration, nothing changes.
pub open spec fn retired(s: RegistryView, id: Seq<char>, instance: u64) -> RegistryView {
    if s.live(id, instance) {
        destroyed(s, id)
    } else {
        s
    }
}

/// The sessions that a connection currently owns.
pub open spec fn owned_by(s: RegistryView, owner: ConnectionId) -> Set<Seq<char>> {
    Set::new(|id: Seq<char>| s.sessions.contains_key(id) && s.sessions[id].owner == owner)
}

/// The registry after every session of one owner has been destroyed.
pub open spec fn released(s: RegistryView, owner: ConnectionId) -> RegistryView {
    RegistryView { sessions: s.sessions.remove_keys(owned_by(s, owner)), ..s }
}

spec fn holds_id(entries: Seq<TerminalSession>, id: Seq<char>) -> bool {
    exists|i: int| 0 <= i < entries.len() && #[trigger] entries[i].session_id@ == id
}

spec fn position(entries: Seq<TerminalSession>, id: Seq<char>) -> int {
    choose|i: int| 0 <= i < entries.len() && #[trigger] entries[i].session_id@ == id
}

spec fn distinct(entries: Seq<TerminalSession>) -> bool {
    forall|i: int, j: int|
        0 <= i < j < entries.len() ==> entries[i].session_id@ != entries[j].session_id@
}

spec fn entries_map(entries: Seq<TerminalSession>) -> Map<Seq<char>, SessionInfo> {
    Map::new(
        |id: Seq<char>| holds_id(entries, id),
        |id: Seq<char>| entries[position(entries, id)].info(),
    )
}

proof fn lemma_entry(entries: Seq<TerminalSession>, i: int)
    requires
        distinct(entries),
        0 <= i < entries.len(),
    ensures
        holds_id(entries, entries[i].session_id@),
        position(entries, entries[i].session_id@) == i,
        entries_map(entries).contains_key(entries[i].session_id@),
        entries_map(entries)[entries[i].session_id@] == entries[i].info(),
{
    let id = entries[i].session_id@;
    assert(entries[i].session_id@ == id);
    let p = position(entries, id);
    assert(0 <= p < entries.len() && entries[p].session_id@ == id);
    if p < i {
        assert(entries[p].session_id@ != entries[i].session_id@);
    } else if i < p {
        assert(entries[i].session_id@ != entries[p].session_id@);
    }
}

proof fn lemma_update(entries: Seq<TerminalSession>, i: int, entry: TerminalSession)
    requires
        distinct(entries),
        0 <= i < entries.len(),
        entry.session_id@ == entries[i].session_id@,
    ensures
        distinct(entries.update(i, entry)),
        entries_map(entries.update(i, entry)) == entries_map(entries).insert(
            entry.session_id@,
            entry.info(),
        ),
{
    let after = entries.update(i, entry);
    assert(distinct(after)) by {
        assert forall|a: int, b: int| 0 <= a < b < after.len() implies after[a].session_id@
            != after[b].session_id@ by {
            assert(after[a].session_id@ == entries[a].session_id@);
            assert(after[b].session_id@ == entries[b].session_id@);
        }
    }
    let lhs = entries_map(after);
    let rhs = entries_map(entries).insert(entry.session_id@, entry.info());
    assert forall|id: Seq<char>| lhs.contains_key(id) <==> rhs.contains_key(id) by {
        if lhs.contains_key(id) {
            let k = position(after, id);
            assert(entries[k].session_id@ == id);
        }
        if rhs.contains_key(id) {
            if id == entry.session_id@ {
                assert(after[i].session_id@ == id);
            } else {
                let k = position(entries, id);
                assert(after[k].session_id@ == id);
            }
        }
    }
    assert forall|id: Seq<char>| lhs.contains_key(id) implies lhs[id] == rhs[id] by {
        let k = position(after, id);
        lemma_entry(after, k);
        if k != i {
            assert(entries[k] == after[k]);
            lemma_entry(entries, k);
        }
    }
    assert(lhs =~= rhs);
}

proof fn lemma_push(entries: Seq<TerminalSession>, entry: TerminalSession)
    requires
        distinct(entries),
        !holds_id(entries, entry.session_id@),
    ensures
        distinct(entries.push(entry)),
        entries_map(entries.push(entry)) == entries_map(entries).insert(
            entry.session_id@,
            entry.info(),
        ),
{
    let after = entries.push(entry);
    assert(distinct(after)) by {
        assert forall|a: int, b: int| 0 <= a < b < after.len() implies after[a].session_id@
            != after[b].session_id@ by {
            assert(after[a] == entries[a]);
            if b < entries.len() {
                assert(after[b] == entries[b]);
            } else {
                assert(entries[a].session_id@ == after[a].session_id@);
            }
        }
    }
    let lhs = entries_map(after);
    let rhs = entries_map(entries).insert(entry.session_id@, entry.info());
    assert forall|id: Seq<char>| lhs.contains_key(id) <==> rhs.contains_key(id) by {
        if lhs.contains_key(id) {
            let k = position(after, id);
            if k < entries.len() {
                assert(entries[k].session_id@ == id);
            }
        }
        if rhs.contains_key(id) {
            if id == entry.session_id@ {
                assert(after[entries.len() as int].session_id@ == id);
            } else {
                let k = position(entries, id);
                assert(after[k].session_id@ == id);
            }
        }
    }
    assert forall|id: Seq<char>| lhs.contains_key(id) implies lhs[id] == rhs[id] by {
        let k = position(after, id);
        lemma_entry(after, k);
        if k < entries.len() {
            assert(entries[k] == after[k]);
            lemma_entry(entries, k);
        }
    }
    assert(lhs =~= rhs);
}

proof fn lemma_remove(entries: Seq<TerminalSession>, i: int)
    requires
        distinct(entries),
        0 <= i < entries.len(),
    ensures
        distinct(entries.remove(i)),
        entries_map(entries.remove(i)) == entries_map(entries).remove(entries[i].session_id@),
{
    let after = entries.remove(i);
    assert forall|k: int| 0 <= k < after.len() implies after[k] == entries[if k < i { k } else {
        k + 1
    }] by {}
    assert(distinct(after)) by {
        assert forall|a: int, b: int| 0 <= a < b < after.len() implies after[a].session_id@
            != after[b].session_id@ by {
            let a0 = if a < i { a } else { a + 1 };
            let b0 = if b < i { b } else { b + 1 };
            assert(after[a] == entries[a0]);
            assert(after[b] == entries[b0]);
        }
    }
    let gone = entries[i].session_id@;
    let lhs = entries_map(after);
    let rhs = entries_map(entries).remove(gone);
    assert forall|id: Seq<char>| lhs.contains_key(id) <==> rhs.contains_key(id) by {
        if lhs.contains_key(id) {
            let k = position(after, id);
            let k0 = if k < i { k } else { k + 1 };
            assert(after[k] == entries[k0]);
            assert(entries[k0].session_id@ == id);
            if k0 < i {
                assert(entries[k0].session_id@ != entries[i].session_id@);
            } else {
                assert(entries[i].session_id@ != entries[k0].session_id@);
            }
        }
        if rhs.contains_key(id) {
            let k0 = position(entries, id);
            assert(k0 != i);
            let k = if k0 < i { k0 } else { k0 - 1 };
            assert(after[k] == entries[k0]);
            assert(after[k].session_id@ == id);
        }
    }
    assert forall|id: Seq<char>| lhs.contains_key(id) implies lhs[id] == rhs[id] by {
        let k = position(after, id);
        let k0 = if k < i { k } else { k + 1 };
        assert(after[k] == entries[k0]);
        lemma_entry(after, k);
        lemma_entry(entries, k0);
    }
    assert(lhs =~= rhs);
}

/// The set of sessions of an application, keyed by session identifier.
pub struct SessionRegistry {
    sessions: Vec<TerminalSession>,
    next_instance: u64,
}

impl View for SessionRegistry {
    type V = RegistryView;

    closed spec fn view(&self) -> RegistryView {
        RegistryView {
            sessions: entries_map(self.sessions@),
            next_instance: self.next_instance,
        }
    }
}

impl SessionRegistry {
    /// No identifier is registered twice.
    #[verifier::type_invariant]
    spec fn well_formed(self) -> bool {
        distinct(self.sessions@)
    }

    /// A registry with no sessions, whose first registration takes instance
    /// number 0.
    pub fn new() -> (registry: SessionRegistry)
        ensures
            registry@ == (RegistryView { sessions: Map::empty(), next_instance: 0 }),
    {
        let registry = SessionRegistry { sessions: Vec::new(), next_instance: 0 };
        assert(registry@.sessions =~= Map::<Seq<char>, SessionInfo>::empty());
        registry
    }

    /// A registry with no sessions, whose first registration takes the given
    /// instance number.
    pub fn starting_at(next_instance: u64) -> (registry: SessionRegistry)
        ensures
            registry@ == (RegistryView { sessions: Map::empty(), next_instance }),
    {
        let registry = SessionRegistry { sessions: Vec::new(), next_instance };
        assert(registry@.sessions =~= Map::<Seq<char>, SessionInfo>::empty());
        registry
    }

    /// Moves the entries out, leaving the registry empty until they are put
    /// back.
    fn take_entries(&mut self) -> (entries: Vec<TerminalSession>)
        ensures
            entries@ == old(self).sessions@,
            final(self).sessions@.len() == 0,
            final(self).next_instance == old(self).next_instance,
    {
        let mut entries: Vec<TerminalSession> = Vec::new();
        core::mem::swap(&mut self.sessions, &mut entries);
        entries
    }

    fn find(&self, id: &str) -> (at: Option<usize>)
        ensures
            match at {
                Some(i) => i < self.sessions.len() && self.sessions[i as int].session_id@ == id@,
                None => !holds_id(self.sessions@, id@),
            },
    {
        let mut i: usize = 0;
        while i < self.sessions.len()
            invariant
                i <= self.sessions.len(),
                forall|j: int| 0 <= j < i ==> self.sessions[j].session_id@ != id@,
            decreases self.sessions.len() - i,
        {
            if str_eq(self.sessions[i].session_id.as_str(), id) {
                return Some(i);
            }
            i += 1;
        }
        None
    }

    /// Number of registered sessions.
    pub fn len(&self) -> (n: usize)
        ensures
            n == self@.sessions.dom().len(),
            self@.sessions.dom().finite(),
    {
        proof {
            use_type_invariant(self);
            lemma_domain_size(self.sessions@);
        }
        self.sessions.len()
    }

    /// Whether a session is registered under `id`. The registry is not changed.
    pub fn contains(&self, id: &str) -> (found: bool)
        ensures
            found == self@.sessions.contains_key(id@),
    {
        self.find(id).is_some()
    }

    /// What is recorded for `id`, if it is registered.
    pub fn lookup(&self, id: &str) -> (info: Option<SessionInfo>)
        ensures
            info == if self@.sessions.contains_key(id@) {
                Some(self@.sessions[id@])
            } else {
                None
            },
    {
        proof { use_type_invariant(self); }
        match self.find(id) {
            Some(i) => {
                proof { lemma_entry(self.sessions@, i as int); }
                let entry = &self.sessions[i];
                Some(
                    SessionInfo {
                        owner: entry.connection_id,
                        geometry: entry.geometry,
                        instance: entry.instance,
                    },
                )
            }
            None => None,
        }
    }

    /// Whether `id` is registered, and by the registration numbered
    /// `instance`. The registry is not changed.
    pub fn is_live(&self, id: &str, instance: u64) -> (live: bool)
        ensures
            live == self@.live(id@, instance),
    {
        match self.lookup(id) {
            Some(info) => info.instance == instance,
            None => false,
        }
    }

    /// Registers `id` for `owner`, or hands an already registered session
    /// over to `owner`.
    ///
    /// An unseen identifier is registered with the requested size, 80 columns
    /// by 24 rows where none is given, under an instance number that no
    /// registration had before; the outcome is `Created` with that number,
    /// and exactly then a terminal has to be spawned. A known identifier
    /// keeps its geometry and instance, changes owner, and the outcome is
    /// `Reattached`. Once every instance number has been used an unseen
    /// identifier is refused with `Exhausted`.
    pub fn create(
        &mut self,
        id: String,
        owner: ConnectionId,
        cols: Option<u16>,
        rows: Option<u16>,
    ) -> (outcome: CreateOutcome)
        ensures
            final(self)@ == created(old(self)@, id@, owner, requested_geometry(cols, rows)),
            outcome == if old(self)@.sessions.contains_key(id@) {
                CreateOutcome::Reattached
            } else if old(self)@.has_room() {
                CreateOutcome::Created { instance: old(self)@.next_instance }
            } else {
                CreateOutcome::Exhausted
            },
    {
        proof { use_type_invariant(&*self); }
        match self.find(id.as_str()) {
            Some(i) => {
                proof {
                    lemma_entry(self.sessions@, i as int);
                }
                let entry = TerminalSession {
                    session_id: id,
                    connection_id: owner,
                    geometry: self.sessions[i].geometry,
                    instance: self.sessions[i].instance,
                };
                proof {
                    lemma_update(self.sessions@, i as int, entry);
                }
                let mut entries = self.take_entries();
                entries.set(i, entry);
                self.sessions = entries;
                CreateOutcome::Reattached
            }
            None => {
                if self.next_instance == u64::MAX {
                    return CreateOutcome::Exhausted;
                }
                let instance = self.next_instance;
                let geometry = Geometry {
                    cols: match cols { Some(c) => c, None => DEFAULT_COLS },
                    rows: match rows { Some(r) => r, None => DEFAULT_ROWS },
                };
                let entry = TerminalSession {
                    session_id: id,
                    connection_id: owner,
                    geometry,
                    instance,
                };
                proof {
                    lemma_push(self.sessions@, entry);
                }
                let mut entries = self.take_entries();
                entries.push(entry);
                self.sessions = entries;
                self.next_instance = instance + 1;
                CreateOutcome::Created { instance }
            }
        }
    }

    /// Attach: reports whether `id` is registered and, if it is, makes `owner`
    /// its owner.
    pub fn attach(&mut self, id: &str, owner: ConnectionId) -> (found: bool)
        ensures
            found == old(self)@.sessions.contains_key(id@),
            final(self)@ == attached(old(self)@, id@, owner),
    {
        proof { use_type_invariant(&*self); }
        match self.find(id) {
            Some(i) => {
                proof {
                    lemma_entry(self.sessions@, i as int);
                }
                let entry = TerminalSession {
                    session_id: self.sessions[i].session_id.clone(),
                    connection_id: owner,
                    geometry: self.sessions[i].geometry,
                    instance: self.sessions[i].instance,
                };
                proof {
                    lemma_update(self.sessions@, i as int, entry);
                }
                let mut entries = self.take_entries();
                entries.set(i, entry);
                self.sessions = entries;
                true
            }
            None => false,
        }
    }

    /// Records the geometry that the terminal of instance `instance` of
    /// session `id` has taken. Reports whether anything was recorded: the
    /// identifier has to be registered, and by that registration.
    pub fn resize(&mut self, id: &str, instance: u64, cols: u16, rows: u16) -> (recorded: bool)
        ensures
            recorded == old(self)@.live(id@, instance),
            final(self)@ == resized(old(self)@, id@, instance, Geometry { cols, rows }),
    {
        proof { use_type_invariant(&*self); }
        match self.find(id) {
            Some(i) => {
                proof {
                    lemma_entry(self.sessions@, i as int);
                }
                if self.sessions[i].instance != instance {
                    return false;
                }
                let entry = TerminalSession {
                    session_id: self.sessions[i].session_id.clone(),
                    connection_id: self.sessions[i].connection_id,
                    geometry: Geometry { cols, rows },
                    instance,
                };
                proof {
                    lemma_update(self.sessions@, i as int, entry);
                }
                let mut entries = self.take_entries();
                entries.set(i, entry);
                self.sessions = entries;
                true
            }
            None => false,
        }
    }

    /// Removes `id` from the registry. Reports the instance that was
    /// registered, if any; an unknown identifier changes nothing.
    pub fn destroy(&mut self, id: &str) -> (removed: Option<u64>)
        ensures
            removed == if old(self)@.sessions.contains_key(id@) {
                Some(old(self)@.sessions[id@].instance)
            } else {
                None
            },
            final(self)@ == destroyed(old(self)@, id@),
    {
        proof { use_type_invariant(&*self); }
        match self.find(id) {
            Some(i) => {
                proof {
                    lemma_entry(self.sessions@, i as int);
                    lemma_remove(self.sessions@, i as int);
                }
                let instance = self.sessions[i].instance;
                let mut entries = self.take_entries();
                entries.remove(i);
                self.sessions = entries;
                Some(instance)
            }
            None => {
                assert(self@.sessions =~= destroyed(self@, id@).sessions);
                None
            }
        }
    }

    /// Removes `id` from the registry if it is registered by the
    /// registration numbered `instance`. Reports whether it was; otherwise
    /// nothing changes.
    pub fn retire(&mut self, id: &str, instance: u64) -> (removed: bool)
        ensures
            removed == old(self)@.live(id@, instance),
            final(self)@ == retired(old(self)@, id@, instance),
    {
        if self.is_live(id, instance) {
            self.destroy(id);
            true
        } else {
            false
        }
    }

    /// The identifiers of the sessions that `owner` currently owns, each once.
    /// The registry is not changed.
    pub fn drain_by_owner(&self, owner: ConnectionId) -> (ids: Vec<String>)
        ensures
            ids.deep_view().no_duplicates(),
            ids.deep_view().to_set() == owned_by(self@, owner),
    {
        proof { use_type_invariant(self); }
        let mut ids: Vec<String> = Vec::new();
        let ghost mut from: Seq<int> = Seq::empty();
        let mut i: usize = 0;
        while i < self.sessions.len()
            invariant
                i <= self.sessions.len(),
                distinct(self.sessions@),
                from.len() == ids.len(),
                forall|k: int| 0 <= k < from.len() ==> 0 <= #[trigger] from[k] < i,
                forall|k: int, l: int| 0 <= k < l < from.len() ==> from[k] < from[l],
                forall|k: int|
                    0 <= k < from.len() ==> (#[trigger] ids[k])@ == self.sessions[from[k]].session_id@
                        && self.sessions[from[k]].connection_id == owner,
                forall|j: int|
                    0 <= j < i && (#[trigger] self.sessions[j]).connection_id == owner
                        ==> exists|k: int| 0 <= k < from.len() && from[k] == j,
            decreases self.sessions.len() - i,
        {
            if self.sessions[i].connection_id == owner {
                ids.push(self.sessions[i].session_id.clone());
                proof {
                    let before = from;
                    from = from.push(i as int);
                    assert forall|j: int|
                        0 <= j < i + 1 && (#[trigger] self.sessions[j]).connection_id
                            == owner implies exists|k: int| 0 <= k < from.len() && from[k] == j by {
                        if j < i {
                            let k = choose|k: int| 0 <= k < before.len() && before[k] == j;
                            assert(from[k] == j);
                        } else {
                            assert(from[before.len() as int] == j);
                        }
                    }
                }
            }
            i += 1;
        }
        proof {
            let views = ids.deep_view();
            assert forall|k: int| 0 <= k < views.len() implies views[k]
                == self.sessions[from[k]].session_id@ by {
                assert(views[k] == ids[k]@);
            }
            assert forall|k: int, l: int| 0 <= k < views.len() && 0 <= l < views.len() && k
                != l implies views[k] != views[l] by {
                if k < l {
                    assert(from[k] < from[l]);
                } else {
                    assert(from[l] < from[k]);
                }
            }
            assert forall|id: Seq<char>| views.to_set().contains(id) <==> owned_by(
                self@,
                owner,
            ).contains(id) by {
                if views.to_set().contains(id) {
                    let k = choose|k: int| 0 <= k < views.len() && views[k] == id;
                    lemma_entry(self.sessions@, from[k]);
                }
                if owned_by(self@, owner).contains(id) {
                    let j = position(self.sessions@, id);
                    lemma_entry(self.sessions@, j);
                    let k = choose|k: int| 0 <= k < from.len() && from[k] == j;
                    assert(views[k] == id);
                }
            }
            assert(views.to_set() =~= owned_by(self@, owner));
        }
        ids
    }
}

proof fn lemma_domain_size(entries: Seq<TerminalSession>)
    requires
        distinct(entries),
    ensures
        entries_map(entries).dom().finite(),
        entries_map(entries).dom().len() == entries.len(),
    decreases entries.len(),
{
    if entries.len() == 0 {
        assert(entries_map(entries).dom() =~= Set::<Seq<char>>::empty());
    } else {
        let last = entries.len() - 1;
        let front = entries.remove(last);
        lemma_remove(entries, last);
        lemma_domain_size(front);
        lemma_entry(entries, last);
        let id = entries[last].session_id@;
        assert(entries_map(front).dom() =~= entries_map(entries).dom().remove(id));
        assert(entries_map(entries).dom() =~= entries_map(front).dom().insert(id));
    }
}

} // verus!
