//! The registry: the one owner of every session record.
//!
//! Records are kept in creation order. Identifiers are unique among them,
//! and last-activity timestamps never move backwards.
use vstd::prelude::*;
use crate::model::{
    DeploymentStatus, PlatformType, ProjectState, RustPlatformConfig, SessionData, SessionError,
    SessionId, UserDetails, is_default_config, is_initial_project_state,
};

verus! {

/// No two records share an identifier.
pub open spec fn ids_unique(s: Seq<SessionData>) -> bool {
    forall|i: int, j: int|
        0 <= i < s.len() && 0 <= j < s.len() && i != j ==> #[trigger] s[i].id != #[trigger] s[j].id
}

/// Some record carries the identifier.
pub open spec fn contains_id(s: Seq<SessionData>, id: SessionId) -> bool {
    exists|i: int| 0 <= i < s.len() && #[trigger] s[i].id == id
}

/// The position of the record that carries the identifier.
pub open spec fn index_of(s: Seq<SessionData>, id: SessionId) -> int {
    choose|i: int| 0 <= i < s.len() && #[trigger] s[i].id == id
}

/// The later of two timestamps.
pub open spec fn later(a: i64, b: i64) -> i64 {
    if b > a {
        b
    } else {
        a
    }
}

/// A record just created from its identifier, platform, user and the time.
pub open spec fn is_fresh_record(
    r: SessionData,
    id: SessionId,
    platform: PlatformType,
    user: UserDetails,
    now: i64,
) -> bool {
    &&& r.id == id
    &&& r.platform == platform
    &&& r.user_details == user
    &&& is_initial_project_state(r.project_state)
    &&& is_default_config(r.rust_platform_config)
    &&& r.created_at == now
    &&& r.last_activity == now
    &&& r.is_active
}

/// A record after a sync: its project state replaced as a whole, its last
/// activity moved to `now` unless it was later already.
pub open spec fn synced(r: SessionData, state: ProjectState, now: i64) -> SessionData {
    SessionData { project_state: state, last_activity: later(r.last_activity, now), ..r }
}

/// A record after a deployment: its deployment status set, its last
/// activity moved to `now` unless it was later already.
pub open spec fn deployed(r: SessionData, status: DeploymentStatus, now: i64) -> SessionData {
    SessionData {
        project_state: ProjectState { deployment_status: Some(status), ..r.project_state },
        last_activity: later(r.last_activity, now),
        ..r
    }
}

/// Every record of `a` is still in `b`, at its place, with its identifier,
/// and its last activity has not moved backwards.
pub open spec fn activity_kept(a: Seq<SessionData>, b: Seq<SessionData>) -> bool {
    &&& a.len() <= b.len()
    &&& forall|k: int|
        0 <= k < a.len() ==> #[trigger] b[k].id == a[k].id && b[k].last_activity
            >= a[k].last_activity
}

/// The active records, in registry order.
pub open spec fn active_records(s: Seq<SessionData>) -> Seq<SessionData>
    decreases s.len(),
{
    if s.len() == 0 {
        Seq::empty()
    } else if s.last().is_active {
        active_records(s.drop_last()).push(s.last())
    } else {
        active_records(s.drop_last())
    }
}

/// The records that a sequence of references points to.
pub open spec fn pointed(s: Seq<&SessionData>) -> Seq<SessionData> {
    s.map_values(|r: &SessionData| *r)
}

/// Replacing a record by one with the same identifier keeps identifiers
/// unique and every identifier at its place.
proof fn lemma_same_id_update(s: Seq<SessionData>, i: int, rec: SessionData)
    requires
        ids_unique(s),
        0 <= i < s.len(),
        rec.id == s[i].id,
    ensures
        ids_unique(s.update(i, rec)),
        forall|id: SessionId|
            #[trigger] contains_id(s.update(i, rec), id) == contains_id(s, id) && (contains_id(s, id)
                ==> index_of(s.update(i, rec), id) == index_of(s, id)),
{
    let t = s.update(i, rec);
    assert forall|a: int, b: int| 0 <= a < t.len() && 0 <= b < t.len() && a != b implies #[trigger] t[a].id
        != #[trigger] t[b].id by {
        assert(t[a].id == s[a].id);
        assert(t[b].id == s[b].id);
    }
    assert forall|id: SessionId| #[trigger] contains_id(t, id) == contains_id(s, id) && (contains_id(s, id)
        ==> index_of(t, id) == index_of(s, id)) by {
        if contains_id(s, id) {
            let k = index_of(s, id);
            assert(t[k].id == id);
            let m = index_of(t, id);
            assert(s[m].id == id);
        }
        if contains_id(t, id) {
            let m = index_of(t, id);
            assert(s[m].id == id);
        }
    }
}

/// Syncing a session twice with the same project state leaves exactly that
/// state, its modified files included: a sync replaces, it never
/// accumulates.
pub proof fn lemma_sync_twice_replaces(
    s: Seq<SessionData>,
    id: SessionId,
    state: ProjectState,
    first: i64,
    second: i64,
)
    requires
        ids_unique(s),
        contains_id(s, id),
    ensures
        ({
            let once = s.update(index_of(s, id), synced(s[index_of(s, id)], state, first));
            let twice = once.update(index_of(once, id), synced(once[index_of(once, id)], state, second));
            &&& contains_id(twice, id)
            &&& twice[index_of(twice, id)].project_state == state
            &&& twice[index_of(twice, id)].project_state.files_modified == state.files_modified
            &&& twice.len() == s.len()
        }),
{
    let i = index_of(s, id);
    let once = s.update(i, synced(s[i], state, first));
    lemma_same_id_update(s, i, synced(s[i], state, first));
    assert(contains_id(once, id));
    let twice = once.update(i, synced(once[i], state, second));
    lemma_same_id_update(once, i, synced(once[i], state, second));
    assert(contains_id(twice, id));
}

/// The registry after a series of syncs of one session, applied one after
/// another in the order given; each update carries a project state and the
/// time of its sync.
pub open spec fn apply_syncs(
    s: Seq<SessionData>,
    id: SessionId,
    updates: Seq<(ProjectState, i64)>,
) -> Seq<SessionData>
    decreases updates.len(),
{
    if updates.len() == 0 {
        s
    } else {
        let prev = apply_syncs(s, id, updates.drop_last());
        let i = index_of(prev, id);
        prev.update(i, synced(prev[i], updates.last().0, updates.last().1))
    }
}

/// However many syncs of one session are serialized, the session ends
/// with exactly one whole project state, the one written last, which is one
/// of the inputs; every other record is untouched and identifiers stay
/// unique.
pub proof fn lemma_serialized_syncs_last_writer_wins(
    s: Seq<SessionData>,
    id: SessionId,
    updates: Seq<(ProjectState, i64)>,
)
    requires
        ids_unique(s),
        contains_id(s, id),
        updates.len() > 0,
    ensures
        ({
            let f = apply_syncs(s, id, updates);
            &&& ids_unique(f)
            &&& f.len() == s.len()
            &&& contains_id(f, id)
            &&& index_of(f, id) == index_of(s, id)
            &&& f[index_of(f, id)].project_state == updates.last().0
            &&& exists|k: int| 0 <= k < updates.len() && f[index_of(f, id)].project_state == #[trigger] updates[k].0
            &&& forall|j: int| 0 <= j < s.len() && j != index_of(s, id) ==> #[trigger] f[j] == s[j]
        }),
    decreases updates.len(),
{
    lemma_apply_syncs_shape(s, id, updates);
    let f = apply_syncs(s, id, updates);
    let k = updates.len() - 1;
    assert(f[index_of(f, id)].project_state == updates[k].0);
}

proof fn lemma_apply_syncs_shape(s: Seq<SessionData>, id: SessionId, updates: Seq<(ProjectState, i64)>)
    requires
        ids_unique(s),
        contains_id(s, id),
    ensures
        ({
            let f = apply_syncs(s, id, updates);
            &&& ids_unique(f)
            &&& f.len() == s.len()
            &&& contains_id(f, id)
            &&& index_of(f, id) == index_of(s, id)
            &&& updates.len() > 0 ==> f[index_of(f, id)].project_state == updates.last().0
            &&& forall|j: int| 0 <= j < s.len() && j != index_of(s, id) ==> #[trigger] f[j] == s[j]
        }),
    decreases updates.len(),
{
    if updates.len() > 0 {
        lemma_apply_syncs_shape(s, id, updates.drop_last());
        let prev = apply_syncs(s, id, updates.drop_last());
        let i = index_of(prev, id);
        assert(prev[i].id == id);
        lemma_same_id_update(prev, i, synced(prev[i], updates.last().0, updates.last().1));
    }
}

/// The session records, one per identifier, in creation order.
pub struct SessionRegistry {
    sessions: Vec<SessionData>,
}

impl View for SessionRegistry {
    type V = Seq<SessionData>;

    closed spec fn view(&self) -> Seq<SessionData> {
        self.sessions@
    }
}

impl SessionRegistry {
    /// The registry holds one record per identifier.
    pub open spec fn wf(&self) -> bool {
        ids_unique(self@)
    }

    /// An empty registry.
    pub fn new() -> (r: Self)
        ensures
            r.wf(),
            r@ == Seq::<SessionData>::empty(),
    {
        let r = SessionRegistry { sessions: Vec::new() };
        assert(r@ =~= Seq::<SessionData>::empty());
        r
    }

    /// The number of records.
    pub fn len(&self) -> (r: usize)
        ensures
            r == self@.len(),
    {
        self.sessions.len()
    }

    fn find(&self, id: SessionId) -> (r: Option<usize>)
        requires
            self.wf(),
        ensures
            match r {
                Some(i) => contains_id(self@, id) && i == index_of(self@, id),
                None => !contains_id(self@, id),
            },
    {
        let mut i: usize = 0;
        while i < self.sessions.len()
            invariant
                self.wf(),
                i <= self@.len(),
                self@ == self.sessions@,
                forall|k: int| 0 <= k < i ==> #[trigger] self@[k].id != id,
            decreases self@.len() - i,
        {
            if self.sessions[i].id == id {
                assert(contains_id(self@, id));
                let ghost j = index_of(self@, id);
                assert(self@[j].id == id);
                assert(self@[i as int].id == id);
                return Some(i);
            }
            i = i + 1;
        }
        None
    }

    /// Whether a record carries the identifier.
    pub fn contains(&self, id: SessionId) -> (r: bool)
        requires
            self.wf(),
        ensures
            r == contains_id(self@, id),
    {
        self.find(id).is_some()
    }

    /// Creates a record for a new identifier: project state on `main` with
    /// nothing modified and compilation pending, default toolchain settings,
    /// created and last active at `now`, active. An identifier already in
    /// use is refused and nothing changes.
    pub fn create(
        &mut self,
        id: SessionId,
        platform: PlatformType,
        user_details: UserDetails,
        now: i64,
    ) -> (r: bool)
        requires
            old(self).wf(),
        ensures
            final(self).wf(),
            activity_kept(old(self)@, final(self)@),
            r == !contains_id(old(self)@, id),
            r ==> final(self)@.len() == old(self)@.len() + 1 && final(self)@.drop_last()
                == old(self)@ && is_fresh_record(
                final(self)@.last(),
                id,
                platform,
                user_details,
                now,
            ),
            !r ==> final(self)@ == old(self)@,
    {
        if self.contains(id) {
            return false;
        }
        let record = SessionData {
            id,
            platform,
            user_details,
            project_state: ProjectState::initial(),
            rust_platform_config: RustPlatformConfig::default(),
            created_at: now,
            last_activity: now,
            is_active: true,
        };
        self.sessions.push(record);
        assert(self@.drop_last() =~= old(self)@);
        true
    }

    /// The record that carries the identifier.
    pub fn get(&self, id: SessionId) -> (r: Result<&SessionData, SessionError>)
        requires
            self.wf(),
        ensures
            contains_id(self@, id) ==> (r matches Ok(rec) && *rec == self@[index_of(self@, id)]),
            !contains_id(self@, id) ==> (r matches Err(e) && e == SessionError::SessionNotFound),
    {
        match self.find(id) {
            Some(i) => Ok(&self.sessions[i]),
            None => Err(SessionError::SessionNotFound),
        }
    }

    /// Replaces the project state of a record as a whole and bumps its
    /// last activity; an unknown identifier changes nothing.
    pub fn update_project_state(&mut self, id: SessionId, state: ProjectState, now: i64) -> (r:
        Result<(), SessionError>)
        requires
            old(self).wf(),
        ensures
            final(self).wf(),
            activity_kept(old(self)@, final(self)@),
            contains_id(old(self)@, id) ==> r is Ok && final(self)@ == old(self)@.update(
                index_of(old(self)@, id),
                synced(old(self)@[index_of(old(self)@, id)], state, now),
            ),
            !contains_id(old(self)@, id) ==> r == Err::<(), SessionError>(
                SessionError::SessionNotFound,
            ) && final(self)@ == old(self)@,
    {
        match self.find(id) {
            Some(i) => {
                let mut record = self.sessions.remove(i);
                record.project_state = state;
                if now > record.last_activity {
                    record.last_activity = now;
                }
                self.sessions.insert(i, record);
                assert(self@ =~= old(self)@.update(i as int, synced(old(self)@[i as int], state, now)));
                assert(ids_unique(self@)) by {
                    assert forall|a: int, b: int|
                        0 <= a < self@.len() && 0 <= b < self@.len() && a != b implies #[trigger] self@[a].id
                        != #[trigger] self@[b].id by {
                        assert(self@[a].id == old(self)@[a].id);
                        assert(self@[b].id == old(self)@[b].id);
                    }
                }
                Ok(())
            },
            None => Err(SessionError::SessionNotFound),
        }
    }

    /// Sets the deployment status of a record and bumps its last activity;
    /// an unknown identifier changes nothing.
    pub fn mark_deployed(&mut self, id: SessionId, status: DeploymentStatus, now: i64) -> (r: Result<
        (),
        SessionError,
    >)
        requires
            old(self).wf(),
        ensures
            final(self).wf(),
            activity_kept(old(self)@, final(self)@),
            contains_id(old(self)@, id) ==> r is Ok && final(self)@ == old(self)@.update(
                index_of(old(self)@, id),
                deployed(old(self)@[index_of(old(self)@, id)], status, now),
            ),
            !contains_id(old(self)@, id) ==> r == Err::<(), SessionError>(
                SessionError::SessionNotFound,
            ) && final(self)@ == old(self)@,
    {
        match self.find(id) {
            Some(i) => {
                let mut record = self.sessions.remove(i);
                record.project_state.deployment_status = Some(status);
                if now > record.last_activity {
                    record.last_activity = now;
                }
                self.sessions.insert(i, record);
                assert(self@ =~= old(self)@.update(i as int, deployed(old(self)@[i as int], status, now)));
                assert(ids_unique(self@)) by {
                    assert forall|a: int, b: int|
                        0 <= a < self@.len() && 0 <= b < self@.len() && a != b implies #[trigger] self@[a].id
                        != #[trigger] self@[b].id by {
                        assert(self@[a].id == old(self)@[a].id);
                        assert(self@[b].id == old(self)@[b].id);
                    }
                }
                Ok(())
            },
            None => Err(SessionError::SessionNotFound),
        }
    }

    /// A point-in-time view of the active records, in registry order.
    pub fn snapshot_active(&self) -> (r: Vec<&SessionData>)
        ensures
            pointed(r@) == active_records(self@),
    {
        let mut out: Vec<&SessionData> = Vec::new();
        let mut i: usize = 0;
        while i < self.sessions.len()
            invariant
                i <= self@.len(),
                self@ == self.sessions@,
                pointed(out@) == active_records(self@.take(i as int)),
            decreases self@.len() - i,
        {
            let ghost before = out@;
            let record = &self.sessions[i];
            if record.is_active {
                out.push(record);
                assert(pointed(out@) =~= pointed(before).push(*record));
            }
            assert(self@.take(i + 1).drop_last() =~= self@.take(i as int));
            i = i + 1;
        }
        assert(self@.take(i as int) =~= self@);
        out
    }
}

} // verus!
