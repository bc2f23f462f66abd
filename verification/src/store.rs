//! The leaderboard store: the signed-in profile(s), GitHub login sessions
//! and per-window usage snapshots, with the operations of the app's ranking
//! tables.
use crate::clock::{
    clock_failed, clock_unavailable_message, new_session_id, now_unix, random_unavailable_message,
};
use crate::model::{
    AppError, GithubAuthSession, LeaderboardProfile, LocalSnapshot, ProfileView,
};
use crate::range::{range_key, LeaderboardRange};
use crate::text::{clone_opt, opt_view, owned, str_eq};
use vstd::prelude::*;

verus! {

// ---------------------------------------------------------------------------
// Rows
// ---------------------------------------------------------------------------

/// A stored profile.
#[derive(Debug)]
pub struct ProfileRow {
    pub user_id: String,
    pub github_login: String,
    pub display_name: String,
    pub avatar_url: Option<String>,
    pub auth_token: Option<String>,
    pub opted_in: bool,
    pub is_current: bool,
    pub joined_at: i64,
    pub updated_at: i64,
}

/// The view of a stored profile.
pub struct ProfileRowView {
    pub user_id: Seq<char>,
    pub github_login: Seq<char>,
    pub display_name: Seq<char>,
    pub avatar_url: Option<Seq<char>>,
    pub auth_token: Option<Seq<char>>,
    pub opted_in: bool,
    pub is_current: bool,
    pub joined_at: i64,
    pub updated_at: i64,
}

impl View for ProfileRow {
    type V = ProfileRowView;

    open spec fn view(&self) -> ProfileRowView {
        ProfileRowView {
            user_id: self.user_id@,
            github_login: self.github_login@,
            display_name: self.display_name@,
            avatar_url: opt_view(self.avatar_url),
            auth_token: opt_view(self.auth_token),
            opted_in: self.opted_in,
            is_current: self.is_current,
            joined_at: self.joined_at,
            updated_at: self.updated_at,
        }
    }
}

impl ProfileRow {
    /// A field-by-field copy.
    pub fn duplicate(&self) -> (r: ProfileRow)
        ensures
            r@ == self@,
    {
        ProfileRow {
            user_id: self.user_id.clone(),
            github_login: self.github_login.clone(),
            display_name: self.display_name.clone(),
            avatar_url: clone_opt(&self.avatar_url),
            auth_token: clone_opt(&self.auth_token),
            opted_in: self.opted_in,
            is_current: self.is_current,
            joined_at: self.joined_at,
            updated_at: self.updated_at,
        }
    }

    /// The profile a stored row reads as.
    pub fn to_profile(&self) -> (p: LeaderboardProfile)
        ensures
            p@ == row_profile(self@),
    {
        LeaderboardProfile {
            user_id: self.user_id.clone(),
            github_login: self.github_login.clone(),
            display_name: self.display_name.clone(),
            avatar_url: clone_opt(&self.avatar_url),
            opted_in: self.opted_in,
            joined_at: self.joined_at,
            auth_token: clone_opt(&self.auth_token),
        }
    }
}

/// The profile a stored row reads as.
pub open spec fn row_profile(r: ProfileRowView) -> ProfileView {
    ProfileView {
        user_id: r.user_id,
        github_login: r.github_login,
        display_name: r.display_name,
        avatar_url: r.avatar_url,
        opted_in: r.opted_in,
        joined_at: r.joined_at,
        auth_token: r.auth_token,
    }
}

/// A stored GitHub login session; `state` holds the device code.
#[derive(Debug)]
pub struct SessionRow {
    pub id: String,
    pub state: String,
    pub created_at: i64,
    pub expires_at: i64,
    pub completed_at: Option<i64>,
    pub error: Option<String>,
}

/// The view of a stored session.
pub struct SessionRowView {
    pub id: Seq<char>,
    pub state: Seq<char>,
    pub created_at: i64,
    pub expires_at: i64,
    pub completed_at: Option<i64>,
    pub error: Option<Seq<char>>,
}

impl View for SessionRow {
    type V = SessionRowView;

    open spec fn view(&self) -> SessionRowView {
        SessionRowView {
            id: self.id@,
            state: self.state@,
            created_at: self.created_at,
            expires_at: self.expires_at,
            completed_at: self.completed_at,
            error: opt_view(self.error),
        }
    }
}

impl SessionRow {
    /// A field-by-field copy.
    pub fn duplicate(&self) -> (r: SessionRow)
        ensures
            r@ == self@,
    {
        SessionRow {
            id: self.id.clone(),
            state: self.state.clone(),
            created_at: self.created_at,
            expires_at: self.expires_at,
            completed_at: self.completed_at,
            error: clone_opt(&self.error),
        }
    }
}

/// A stored usage snapshot of one user, period and window.
#[derive(Debug)]
pub struct SnapshotRow {
    pub user_id: String,
    pub range_key: String,
    pub window_start: i64,
    pub window_end: i64,
    pub total_tokens: i64,
    pub input_tokens: i64,
    pub output_tokens: i64,
    pub cache_read_tokens: i64,
    pub cache_creation_tokens: i64,
    pub request_count: i64,
    pub total_cost_usd: String,
    pub snapshot_at: i64,
}

/// The view of a stored snapshot.
pub struct SnapshotRowView {
    pub user_id: Seq<char>,
    pub range_key: Seq<char>,
    pub window_start: i64,
    pub window_end: i64,
    pub total_tokens: i64,
    pub input_tokens: i64,
    pub output_tokens: i64,
    pub cache_read_tokens: i64,
    pub cache_creation_tokens: i64,
    pub request_count: i64,
    pub total_cost_usd: Seq<char>,
    pub snapshot_at: i64,
}

impl View for SnapshotRow {
    type V = SnapshotRowView;

    open spec fn view(&self) -> SnapshotRowView {
        SnapshotRowView {
            user_id: self.user_id@,
            range_key: self.range_key@,
            window_start: self.window_start,
            window_end: self.window_end,
            total_tokens: self.total_tokens,
            input_tokens: self.input_tokens,
            output_tokens: self.output_tokens,
            cache_read_tokens: self.cache_read_tokens,
            cache_creation_tokens: self.cache_creation_tokens,
            request_count: self.request_count,
            total_cost_usd: self.total_cost_usd@,
            snapshot_at: self.snapshot_at,
        }
    }
}

// ---------------------------------------------------------------------------
// The store and its invariant
// ---------------------------------------------------------------------------

/// The leaderboard store.
pub struct Database {
    profiles: Vec<ProfileRow>,
    sessions: Vec<SessionRow>,
    snapshots: Vec<SnapshotRow>,
}

/// The view of the store: its three tables in row order.
pub struct DbView {
    pub profiles: Seq<ProfileRowView>,
    pub sessions: Seq<SessionRowView>,
    pub snapshots: Seq<SnapshotRowView>,
}

impl View for Database {
    type V = DbView;

    closed spec fn view(&self) -> DbView {
        DbView {
            profiles: self.profiles@.map_values(|r: ProfileRow| r@),
            sessions: self.sessions@.map_values(|r: SessionRow| r@),
            snapshots: self.snapshots@.map_values(|r: SnapshotRow| r@),
        }
    }
}

/// User ids are distinct.
pub open spec fn profiles_keyed(ps: Seq<ProfileRowView>) -> bool {
    forall|i: int, j: int| 0 <= i < j < ps.len() ==> ps[i].user_id != ps[j].user_id
}

/// At most one profile is the current one.
pub open spec fn one_current(ps: Seq<ProfileRowView>) -> bool {
    forall|i: int, j: int| 0 <= i < j < ps.len() ==> !(ps[i].is_current && ps[j].is_current)
}

/// Session ids are distinct.
pub open spec fn sessions_keyed(ss: Seq<SessionRowView>) -> bool {
    forall|i: int, j: int| 0 <= i < j < ss.len() ==> ss[i].id != ss[j].id
}

/// Whether a snapshot belongs to the given user, period and window.
pub open spec fn snapshot_has_key(
    s: SnapshotRowView,
    user_id: Seq<char>,
    key: Seq<char>,
    window_start: i64,
    window_end: i64,
) -> bool {
    s.user_id == user_id && s.range_key == key && s.window_start == window_start && s.window_end
        == window_end
}

/// Each (user, period, window) has at most one snapshot.
pub open spec fn snapshots_keyed(ss: Seq<SnapshotRowView>) -> bool {
    forall|i: int, j: int|
        0 <= i < j < ss.len() ==> !snapshot_has_key(
            ss[j],
            ss[i].user_id,
            ss[i].range_key,
            ss[i].window_start,
            ss[i].window_end,
        )
}

/// The store's invariant: the keys of the three tables are unique and at
/// most one profile is current.
pub open spec fn db_wf(v: DbView) -> bool {
    &&& profiles_keyed(v.profiles)
    &&& one_current(v.profiles)
    &&& sessions_keyed(v.sessions)
    &&& snapshots_keyed(v.snapshots)
}

// ---------------------------------------------------------------------------
// Lookups
// ---------------------------------------------------------------------------

/// Whether a current profile exists.
pub open spec fn has_current(ps: Seq<ProfileRowView>) -> bool {
    exists|i: int| 0 <= i < ps.len() && ps[i].is_current
}

/// The index of the current profile.
pub open spec fn current_index(ps: Seq<ProfileRowView>) -> int {
    choose|i: int| 0 <= i < ps.len() && ps[i].is_current
}

/// The current profile, as `get_leaderboard_profile` reads it.
pub open spec fn current_profile(v: DbView) -> Option<ProfileView> {
    if has_current(v.profiles) {
        Some(row_profile(v.profiles[current_index(v.profiles)]))
    } else {
        None
    }
}

/// Whether a profile with the user id exists.
pub open spec fn has_user(ps: Seq<ProfileRowView>, user_id: Seq<char>) -> bool {
    exists|i: int| 0 <= i < ps.len() && ps[i].user_id == user_id
}

/// The index of the profile with the user id.
pub open spec fn user_index(ps: Seq<ProfileRowView>, user_id: Seq<char>) -> int {
    choose|i: int| 0 <= i < ps.len() && ps[i].user_id == user_id
}

/// Whether a session with the id exists.
pub open spec fn has_session(ss: Seq<SessionRowView>, id: Seq<char>) -> bool {
    exists|i: int| 0 <= i < ss.len() && ss[i].id == id
}

/// The index of the session with the id.
pub open spec fn session_index(ss: Seq<SessionRowView>, id: Seq<char>) -> int {
    choose|i: int| 0 <= i < ss.len() && ss[i].id == id
}

/// Whether a snapshot with the key exists.
pub open spec fn has_snapshot(
    ss: Seq<SnapshotRowView>,
    user_id: Seq<char>,
    key: Seq<char>,
    window_start: i64,
    window_end: i64,
) -> bool {
    exists|i: int|
        0 <= i < ss.len() && snapshot_has_key(ss[i], user_id, key, window_start, window_end)
}

/// The index of the snapshot with the key.
pub open spec fn snapshot_index(
    ss: Seq<SnapshotRowView>,
    user_id: Seq<char>,
    key: Seq<char>,
    window_start: i64,
    window_end: i64,
) -> int {
    choose|i: int|
        0 <= i < ss.len() && snapshot_has_key(ss[i], user_id, key, window_start, window_end)
}

// ---------------------------------------------------------------------------
// Effects of the operations
// ---------------------------------------------------------------------------

/// Whether row `k` is the profile a read takes as current: it is marked
/// current, no current row was updated later, and every current row before
/// it was updated earlier (the first of the latest).
pub open spec fn is_latest_current(ps: Seq<ProfileRowView>, k: int) -> bool {
    &&& 0 <= k < ps.len()
    &&& ps[k].is_current
    &&& forall|j: int|
        0 <= j < ps.len() && #[trigger] ps[j].is_current ==> ps[j].updated_at <= ps[k].updated_at
    &&& forall|j: int| 0 <= j < k && #[trigger] ps[j].is_current ==> ps[j].updated_at < ps[k].updated_at
}

/// The profiles with only the latest current row left current (unchanged
/// when no row is current).
pub open spec fn normalized_profiles(ps: Seq<ProfileRowView>) -> Seq<ProfileRowView> {
    if exists|k: int| is_latest_current(ps, k) {
        let k = choose|k: int| is_latest_current(ps, k);
        ps.map(|i: int, p: ProfileRowView| ProfileRowView { is_current: p.is_current && i == k, ..p })
    } else {
        ps
    }
}

/// At most one row is the latest current one.
pub proof fn lemma_latest_current_unique(ps: Seq<ProfileRowView>, a: int, b: int)
    requires
        is_latest_current(ps, a),
        is_latest_current(ps, b),
    ensures
        a == b,
{
    assert(ps[a].updated_at <= ps[b].updated_at);
    assert(ps[b].updated_at <= ps[a].updated_at);
    if a < b {
        assert(ps[a].updated_at < ps[b].updated_at);
    } else if b < a {
        assert(ps[b].updated_at < ps[a].updated_at);
    }
}

/// The store after signing out: no profile and no login session; the
/// snapshots stay.
pub open spec fn signed_out(v: DbView) -> DbView {
    DbView { profiles: Seq::empty(), sessions: Seq::empty(), ..v }
}

/// Every profile marked as not current.
pub open spec fn cleared(ps: Seq<ProfileRowView>) -> Seq<ProfileRowView> {
    ps.map_values(|p: ProfileRowView| ProfileRowView { is_current: false, ..p })
}

/// The view of an optional string slice.
pub open spec fn opt_str_view(s: Option<&str>) -> Option<Seq<char>> {
    match s {
        Some(v) => Some(v@),
        None => None,
    }
}

/// The profile table after an upsert at time `now`: every other profile
/// stops being current; the user's row is updated (its join time kept, its
/// token kept when none is given) or appended.
pub open spec fn upserted_profiles(
    ps: Seq<ProfileRowView>,
    user_id: Seq<char>,
    github_login: Seq<char>,
    display_name: Seq<char>,
    avatar_url: Option<Seq<char>>,
    opted_in: bool,
    auth_token: Option<Seq<char>>,
    now: i64,
) -> Seq<ProfileRowView> {
    if has_user(ps, user_id) {
        let i = user_index(ps, user_id);
        cleared(ps).update(
            i,
            ProfileRowView {
                user_id,
                github_login,
                display_name,
                avatar_url,
                auth_token: if auth_token is Some {
                    auth_token
                } else {
                    ps[i].auth_token
                },
                opted_in,
                is_current: true,
                joined_at: ps[i].joined_at,
                updated_at: now,
            },
        )
    } else {
        cleared(ps).push(
            ProfileRowView {
                user_id,
                github_login,
                display_name,
                avatar_url,
                auth_token,
                opted_in,
                is_current: true,
                joined_at: now,
                updated_at: now,
            },
        )
    }
}

/// The profile table after the current profile's opt-in is set at `now`.
pub open spec fn opted_profiles(ps: Seq<ProfileRowView>, opted_in: bool, now: i64) -> Seq<
    ProfileRowView,
> {
    let i = current_index(ps);
    ps.update(i, ProfileRowView { opted_in, updated_at: now, ..ps[i] })
}

/// The session table after a session is created.
pub open spec fn created_sessions(
    ss: Seq<SessionRowView>,
    id: Seq<char>,
    device_code: Seq<char>,
    expires_at: i64,
    now: i64,
) -> Seq<SessionRowView> {
    ss.push(
        SessionRowView {
            id,
            state: device_code,
            created_at: now,
            expires_at,
            completed_at: None,
            error: None,
        },
    )
}

/// The session table after a session is marked completed at `now` (nothing
/// changes when there is no such session).
pub open spec fn completed_sessions(ss: Seq<SessionRowView>, id: Seq<char>, now: i64) -> Seq<
    SessionRowView,
> {
    if has_session(ss, id) {
        let i = session_index(ss, id);
        ss.update(i, SessionRowView { completed_at: Some(now), error: None, ..ss[i] })
    } else {
        ss
    }
}

/// The session table after an error is recorded on a session.
pub open spec fn failed_sessions(ss: Seq<SessionRowView>, id: Seq<char>, error: Seq<char>) -> Seq<
    SessionRowView,
> {
    if has_session(ss, id) {
        let i = session_index(ss, id);
        ss.update(i, SessionRowView { error: Some(error), ..ss[i] })
    } else {
        ss
    }
}

/// The snapshot table after the local snapshot of a window is written at
/// `now`: the row of that user, period and window is replaced, or appended.
pub open spec fn upserted_snapshots(
    ss: Seq<SnapshotRowView>,
    user_id: Seq<char>,
    key: Seq<char>,
    window_start: i64,
    window_end: i64,
    snapshot: LocalSnapshot,
    now: i64,
) -> Seq<SnapshotRowView> {
    let row = SnapshotRowView {
        user_id,
        range_key: key,
        window_start,
        window_end,
        total_tokens: crate::model::snapshot_total(
            snapshot.input_tokens,
            snapshot.output_tokens,
            snapshot.cache_read_tokens,
            snapshot.cache_creation_tokens,
        ) as i64,
        input_tokens: snapshot.input_tokens,
        output_tokens: snapshot.output_tokens,
        cache_read_tokens: snapshot.cache_read_tokens,
        cache_creation_tokens: snapshot.cache_creation_tokens,
        request_count: snapshot.request_count,
        total_cost_usd: snapshot.total_cost_usd@,
        snapshot_at: now,
    };
    if has_snapshot(ss, user_id, key, window_start, window_end) {
        ss.update(snapshot_index(ss, user_id, key, window_start, window_end), row)
    } else {
        ss.push(row)
    }
}

/// The message when no profile is signed in.
pub open spec fn sign_in_first_message() -> Seq<char> {
    "请先使用 GitHub 登录"@
}

/// The message when a login session is unknown.
pub open spec fn unknown_session_message() -> Seq<char> {
    "GitHub 登录会话不存在或已失效"@
}

/// The message when a session id is already taken.
pub open spec fn duplicate_session_message() -> Seq<char> {
    "UNIQUE constraint failed: ranking_auth_session.id"@
}

/// Keeps only the latest current profile current (`normalized_profiles`).
fn normalize_current(profiles: Vec<ProfileRow>) -> (r: Vec<ProfileRow>)
    ensures
        r@.map_values(|p: ProfileRow| p@) == normalized_profiles(
            profiles@.map_values(|p: ProfileRow| p@),
        ),
        r@.len() == profiles@.len(),
        forall|i: int|
            0 <= i < r@.len() ==> (#[trigger] r@[i])@.user_id == profiles@[i]@.user_id,
        one_current(r@.map_values(|p: ProfileRow| p@)),
{
    let ghost pv = profiles@.map_values(|p: ProfileRow| p@);
    let n = profiles.len();
    let mut best: Option<usize> = None;
    let mut i: usize = 0;
    while i < n
        invariant
            n == profiles.len(),
            pv == profiles@.map_values(|p: ProfileRow| p@),
            i <= n,
            match best {
                None => forall|j: int| 0 <= j < i ==> !(#[trigger] pv[j]).is_current,
                Some(k) => {
                    &&& k < i
                    &&& pv[k as int].is_current
                    &&& forall|j: int|
                        0 <= j < i && #[trigger] pv[j].is_current ==> pv[j].updated_at
                            <= pv[k as int].updated_at
                    &&& forall|j: int|
                        0 <= j < k && #[trigger] pv[j].is_current ==> pv[j].updated_at
                            < pv[k as int].updated_at
                },
            },
        decreases n - i,
    {
        assert(pv[i as int] == profiles[i as int]@);
        if profiles[i].is_current {
            match best {
                None => {
                    best = Some(i);
                },
                Some(k) => {
                    assert(pv[k as int] == profiles[k as int]@);
                    if profiles[i].updated_at > profiles[k].updated_at {
                        best = Some(i);
                    }
                },
            }
        }
        i = i + 1;
    }
    match best {
        None => {
            proof {
                assert forall|k: int| !is_latest_current(pv, k) by {
                    if 0 <= k < pv.len() {
                        assert(!pv[k].is_current);
                    }
                }
                assert forall|a: int, b: int| 0 <= a < b < pv.len() implies !(pv[a].is_current
                    && pv[b].is_current) by {
                    assert(!pv[a].is_current);
                }
            }
            profiles
        },
        Some(k) => {
            let ghost target = pv.map(
                |j: int, p: ProfileRowView| ProfileRowView { is_current: p.is_current && j == k, ..p },
            );
            proof {
                assert(is_latest_current(pv, k as int));
                assert forall|c: int| is_latest_current(pv, c) implies c == k by {
                    lemma_latest_current_unique(pv, c, k as int);
                }
                assert(normalized_profiles(pv) == target);
            }
            let mut out: Vec<ProfileRow> = Vec::new();
            let mut i: usize = 0;
            while i < n
                invariant
                    n == profiles.len(),
                    pv == profiles@.map_values(|p: ProfileRow| p@),
                    target == pv.map(
                        |j: int, p: ProfileRowView| ProfileRowView {
                            is_current: p.is_current && j == k,
                            ..p
                        },
                    ),
                    i <= n,
                    out@.map_values(|p: ProfileRow| p@) == target.subrange(0, i as int),
                    out@.len() == i,
                    forall|j: int|
                        0 <= j < i ==> (#[trigger] out@[j])@.user_id == profiles@[j]@.user_id,
                decreases n - i,
            {
                let row = &profiles[i];
                let copy = ProfileRow {
                    user_id: row.user_id.clone(),
                    github_login: row.github_login.clone(),
                    display_name: row.display_name.clone(),
                    avatar_url: clone_opt(&row.avatar_url),
                    auth_token: clone_opt(&row.auth_token),
                    opted_in: row.opted_in,
                    is_current: row.is_current && i == k,
                    joined_at: row.joined_at,
                    updated_at: row.updated_at,
                };
                proof {
                    assert(pv[i as int] == profiles[i as int]@);
                    assert(copy@ == target[i as int]);
                }
                out.push(copy);
                proof {
                    assert(out@.map_values(|p: ProfileRow| p@) =~= target.subrange(0, i + 1));
                }
                i = i + 1;
            }
            proof {
                assert(target.subrange(0, n as int) =~= target);
                let ov = out@.map_values(|p: ProfileRow| p@);
                assert forall|a: int, b: int| 0 <= a < b < ov.len() implies !(ov[a].is_current
                    && ov[b].is_current) by {
                    assert(ov[a] == target[a]);
                    assert(ov[b] == target[b]);
                }
            }
            out
        },
    }
}

// ---------------------------------------------------------------------------
// Operations
// ---------------------------------------------------------------------------

impl Database {
    /// The store's invariant.
    pub open spec fn wf(&self) -> bool {
        db_wf(self@)
    }

    /// The profile rows, in order.
    pub fn profile_rows(&self) -> (r: &Vec<ProfileRow>)
        ensures
            r@.map_values(|p: ProfileRow| p@) == self@.profiles,
    {
        &self.profiles
    }

    /// The session rows, in order.
    pub fn session_rows(&self) -> (r: &Vec<SessionRow>)
        ensures
            r@.map_values(|p: SessionRow| p@) == self@.sessions,
    {
        &self.sessions
    }

    /// The snapshot rows, in order.
    pub fn snapshot_rows(&self) -> (r: &Vec<SnapshotRow>)
        ensures
            r@.map_values(|p: SnapshotRow| p@) == self@.snapshots,
    {
        &self.snapshots
    }

    /// An empty store.
    pub fn new() -> (db: Database)
        ensures
            db.wf(),
            db@.profiles.len() == 0,
            db@.sessions.len() == 0,
            db@.snapshots.len() == 0,
    {
        let db = Database { profiles: Vec::new(), sessions: Vec::new(), snapshots: Vec::new() };
        assert(db@.profiles =~= Seq::<ProfileRowView>::empty());
        assert(db@.sessions =~= Seq::<SessionRowView>::empty());
        assert(db@.snapshots =~= Seq::<SnapshotRowView>::empty());
        db
    }

    /// A store holding the given rows, or `None` when a key repeats (a user
    /// id, a session id, or a user's snapshot of one period and window).
    /// When several profiles are marked current, only the one a read takes
    /// (the latest updated, the first of those) stays current.
    pub fn from_rows(
        profiles: Vec<ProfileRow>,
        sessions: Vec<SessionRow>,
        snapshots: Vec<SnapshotRow>,
    ) -> (r: Option<Database>)
        ensures
            ({
                let pv = profiles@.map_values(|p: ProfileRow| p@);
                let sv = sessions@.map_values(|p: SessionRow| p@);
                let nv = snapshots@.map_values(|p: SnapshotRow| p@);
                match r {
                    Some(db) => db.wf() && db@.profiles == normalized_profiles(pv) && db@.sessions
                        == sv && db@.snapshots == nv,
                    None => !(profiles_keyed(pv) && sessions_keyed(sv) && snapshots_keyed(nv)),
                }
            }),
    {
        let ghost pv = profiles@.map_values(|p: ProfileRow| p@);
        let profiles = normalize_current(profiles);
        let db = Database { profiles, sessions, snapshots };
        proof {
            assert(db@.profiles == normalized_profiles(pv));
            if profiles_keyed(db@.profiles) {
                assert forall|i: int, j: int| 0 <= i < j < pv.len() implies pv[i].user_id
                    != pv[j].user_id by {
                    assert(db@.profiles[i].user_id == pv[i].user_id);
                    assert(db@.profiles[j].user_id == pv[j].user_id);
                }
            }
            if profiles_keyed(pv) {
                assert forall|i: int, j: int| 0 <= i < j < db@.profiles.len() implies db@.profiles[i].user_id
                    != db@.profiles[j].user_id by {
                    assert(db@.profiles[i].user_id == pv[i].user_id);
                    assert(db@.profiles[j].user_id == pv[j].user_id);
                }
            }
        }
        if db.check_wf() {
            Some(db)
        } else {
            None
        }
    }

    fn check_wf(&self) -> (ok: bool)
        ensures
            ok == self.wf(),
    {
        let ghost v = self@;
        let n = self.profiles.len();
        let mut i: usize = 0;
        while i < n
            invariant
                n == self.profiles.len(),
                v == self@,
                i <= n,
                forall|a: int, b: int|
                    0 <= a < b < v.profiles.len() && a < i ==> v.profiles[a].user_id
                        != v.profiles[b].user_id && !(v.profiles[a].is_current
                        && v.profiles[b].is_current),
            decreases n - i,
        {
            let mut j: usize = i + 1;
            while j < n
                invariant
                    n == self.profiles.len(),
                    v == self@,
                    i < n,
                    i + 1 <= j <= n,
                    forall|a: int, b: int|
                        0 <= a < b < v.profiles.len() && a < i ==> v.profiles[a].user_id
                            != v.profiles[b].user_id && !(v.profiles[a].is_current
                            && v.profiles[b].is_current),
                    forall|b: int|
                        i < b < j ==> v.profiles[i as int].user_id != v.profiles[b].user_id
                            && !(v.profiles[i as int].is_current && v.profiles[b].is_current),
                decreases n - j,
            {
                if str_eq(self.profiles[i].user_id.as_str(), self.profiles[j].user_id.as_str()) || (
                self.profiles[i].is_current && self.profiles[j].is_current) {
                    assert(v.profiles[i as int] == self.profiles[i as int]@);
                    assert(v.profiles[j as int] == self.profiles[j as int]@);
                    assert(!(profiles_keyed(v.profiles) && one_current(v.profiles)));
                    return false;
                }
                j = j + 1;
            }
            i = i + 1;
        }
        let n = self.sessions.len();
        let mut i: usize = 0;
        while i < n
            invariant
                n == self.sessions.len(),
                v == self@,
                i <= n,
                profiles_keyed(v.profiles),
                one_current(v.profiles),
                forall|a: int, b: int|
                    0 <= a < b < v.sessions.len() && a < i ==> v.sessions[a].id != v.sessions[b].id,
            decreases n - i,
        {
            let mut j: usize = i + 1;
            while j < n
                invariant
                    n == self.sessions.len(),
                    v == self@,
                    i < n,
                    i + 1 <= j <= n,
                    forall|a: int, b: int|
                        0 <= a < b < v.sessions.len() && a < i ==> v.sessions[a].id
                            != v.sessions[b].id,
                    forall|b: int| i < b < j ==> v.sessions[i as int].id != v.sessions[b].id,
                decreases n - j,
            {
                if str_eq(self.sessions[i].id.as_str(), self.sessions[j].id.as_str()) {
                    assert(v.sessions[i as int] == self.sessions[i as int]@);
                    assert(v.sessions[j as int] == self.sessions[j as int]@);
                    assert(!sessions_keyed(v.sessions));
                    return false;
                }
                j = j + 1;
            }
            i = i + 1;
        }
        let n = self.snapshots.len();
        let mut i: usize = 0;
        while i < n
            invariant
                n == self.snapshots.len(),
                v == self@,
                i <= n,
                profiles_keyed(v.profiles),
                one_current(v.profiles),
                sessions_keyed(v.sessions),
                forall|a: int, b: int|
                    0 <= a < b < v.snapshots.len() && a < i ==> !snapshot_has_key(
                        v.snapshots[b],
                        v.snapshots[a].user_id,
                        v.snapshots[a].range_key,
                        v.snapshots[a].window_start,
                        v.snapshots[a].window_end,
                    ),
            decreases n - i,
        {
            let mut j: usize = i + 1;
            while j < n
                invariant
                    n == self.snapshots.len(),
                    v == self@,
                    i < n,
                    i + 1 <= j <= n,
                    forall|a: int, b: int|
                        0 <= a < b < v.snapshots.len() && a < i ==> !snapshot_has_key(
                            v.snapshots[b],
                            v.snapshots[a].user_id,
                            v.snapshots[a].range_key,
                            v.snapshots[a].window_start,
                            v.snapshots[a].window_end,
                        ),
                    forall|b: int|
                        i < b < j ==> !snapshot_has_key(
                            v.snapshots[b],
                            v.snapshots[i as int].user_id,
                            v.snapshots[i as int].range_key,
                            v.snapshots[i as int].window_start,
                            v.snapshots[i as int].window_end,
                        ),
                decreases n - j,
            {
                let a = &self.snapshots[i];
                let b = &self.snapshots[j];
                if str_eq(a.user_id.as_str(), b.user_id.as_str()) && str_eq(
                    a.range_key.as_str(),
                    b.range_key.as_str(),
                ) && a.window_start == b.window_start && a.window_end == b.window_end {
                    assert(v.snapshots[i as int] == self.snapshots[i as int]@);
                    assert(v.snapshots[j as int] == self.snapshots[j as int]@);
                    assert(snapshot_has_key(
                        v.snapshots[j as int],
                        v.snapshots[i as int].user_id,
                        v.snapshots[i as int].range_key,
                        v.snapshots[i as int].window_start,
                        v.snapshots[i as int].window_end,
                    ));
                    assert(!snapshots_keyed(v.snapshots));
                    return false;
                }
                j = j + 1;
            }
            i = i + 1;
        }
        true
    }

    fn find_current(&self) -> (r: Option<usize>)
        requires
            self.wf(),
        ensures
            match r {
                Some(i) => has_current(self@.profiles) && i == current_index(self@.profiles) && i
                    < self.profiles.len(),
                None => !has_current(self@.profiles),
            },
    {
        let ghost ps = self@.profiles;
        let mut i: usize = 0;
        while i < self.profiles.len()
            invariant
                i <= self.profiles.len(),
                self.wf(),
                ps == self@.profiles,
                forall|j: int| 0 <= j < i ==> !ps[j].is_current,
            decreases self.profiles.len() - i,
        {
            if self.profiles[i].is_current {
                assert(ps[i as int] == self.profiles[i as int]@);
                assert(ps[i as int].is_current);
                assert(has_current(ps));
                let ghost c = current_index(ps);
                assert(c == i) by {
                    if c != i as int {
                        if c < i {
                            assert(!(ps[c].is_current && ps[i as int].is_current));
                        } else {
                            assert(!(ps[i as int].is_current && ps[c].is_current));
                        }
                    }
                }
                return Some(i);
            }
            i = i + 1;
        }
        None
    }

    fn find_user(&self, user_id: &str) -> (r: Option<usize>)
        requires
            self.wf(),
        ensures
            match r {
                Some(i) => has_user(self@.profiles, user_id@) && i == user_index(
                    self@.profiles,
                    user_id@,
                ) && i < self.profiles.len(),
                None => !has_user(self@.profiles, user_id@),
            },
    {
        let ghost ps = self@.profiles;
        let mut i: usize = 0;
        while i < self.profiles.len()
            invariant
                i <= self.profiles.len(),
                self.wf(),
                ps == self@.profiles,
                forall|j: int| 0 <= j < i ==> ps[j].user_id != user_id@,
            decreases self.profiles.len() - i,
        {
            if str_eq(self.profiles[i].user_id.as_str(), user_id) {
                assert(ps[i as int] == self.profiles[i as int]@);
                assert(ps[i as int].user_id == user_id@);
                assert(has_user(ps, user_id@));
                let ghost c = user_index(ps, user_id@);
                assert(c == i) by {
                    if c != i as int {
                        if c < i {
                            assert(ps[c].user_id != ps[i as int].user_id);
                        } else {
                            assert(ps[i as int].user_id != ps[c].user_id);
                        }
                    }
                }
                return Some(i);
            }
            i = i + 1;
        }
        None
    }

    fn find_session(&self, id: &str) -> (r: Option<usize>)
        requires
            self.wf(),
        ensures
            match r {
                Some(i) => has_session(self@.sessions, id@) && i == session_index(
                    self@.sessions,
                    id@,
                ) && i < self.sessions.len(),
                None => !has_session(self@.sessions, id@),
            },
    {
        let ghost ss = self@.sessions;
        let mut i: usize = 0;
        while i < self.sessions.len()
            invariant
                i <= self.sessions.len(),
                self.wf(),
                ss == self@.sessions,
                forall|j: int| 0 <= j < i ==> ss[j].id != id@,
            decreases self.sessions.len() - i,
        {
            if str_eq(self.sessions[i].id.as_str(), id) {
                assert(ss[i as int] == self.sessions[i as int]@);
                assert(ss[i as int].id == id@);
                assert(has_session(ss, id@));
                let ghost c = session_index(ss, id@);
                assert(c == i) by {
                    if c != i as int {
                        if c < i {
                            assert(ss[c].id != ss[i as int].id);
                        } else {
                            assert(ss[i as int].id != ss[c].id);
                        }
                    }
                }
                return Some(i);
            }
            i = i + 1;
        }
        None
    }

    fn find_snapshot(&self, user_id: &str, key: &str, window_start: i64, window_end: i64) -> (r:
        Option<usize>)
        requires
            self.wf(),
        ensures
            match r {
                Some(i) => has_snapshot(self@.snapshots, user_id@, key@, window_start, window_end)
                    && i == snapshot_index(self@.snapshots, user_id@, key@, window_start, window_end)
                    && i < self.snapshots.len(),
                None => !has_snapshot(self@.snapshots, user_id@, key@, window_start, window_end),
            },
    {
        let ghost ss = self@.snapshots;
        let mut i: usize = 0;
        while i < self.snapshots.len()
            invariant
                i <= self.snapshots.len(),
                self.wf(),
                ss == self@.snapshots,
                forall|j: int|
                    0 <= j < i ==> !snapshot_has_key(ss[j], user_id@, key@, window_start, window_end),
            decreases self.snapshots.len() - i,
        {
            let row = &self.snapshots[i];
            if str_eq(row.user_id.as_str(), user_id) && str_eq(row.range_key.as_str(), key)
                && row.window_start == window_start && row.window_end == window_end {
                assert(ss[i as int] == self.snapshots[i as int]@);
                assert(snapshot_has_key(ss[i as int], user_id@, key@, window_start, window_end));
                assert(has_snapshot(ss, user_id@, key@, window_start, window_end));
                let ghost c = snapshot_index(ss, user_id@, key@, window_start, window_end);
                assert(c == i) by {
                    if c != i as int {
                        if c < i {
                            assert(!snapshot_has_key(
                                ss[i as int],
                                ss[c].user_id,
                                ss[c].range_key,
                                ss[c].window_start,
                                ss[c].window_end,
                            ));
                        } else {
                            assert(!snapshot_has_key(
                                ss[c],
                                ss[i as int].user_id,
                                ss[i as int].range_key,
                                ss[i as int].window_start,
                                ss[i as int].window_end,
                            ));
                        }
                    }
                }
                return Some(i);
            }
            i = i + 1;
        }
        None
    }

    /// The current profile, if someone is signed in.
    pub fn get_leaderboard_profile(&self) -> (r: Result<Option<LeaderboardProfile>, AppError>)
        requires
            self.wf(),
        ensures
            r matches Ok(p) && crate::model::opt_profile_view(p) == current_profile(self@),
    {
        match self.find_current() {
            Some(i) => Ok(Some(self.profiles[i].to_profile())),
            None => Ok(None),
        }
    }

    fn clear_current(&mut self)
        requires
            old(self).wf(),
        ensures
            final(self)@ == (DbView { profiles: cleared(old(self)@.profiles), ..old(self)@ }),
            final(self).wf(),
    {
        let ghost ps = self@.profiles;
        let mut i: usize = 0;
        while i < self.profiles.len()
            invariant
                i <= self.profiles.len(),
                self.profiles.len() == ps.len(),
                self@.sessions == old(self)@.sessions,
                self@.snapshots == old(self)@.snapshots,
                ps == old(self)@.profiles,
                forall|j: int| 0 <= j < i ==> self@.profiles[j] == cleared(ps)[j],
                forall|j: int| i <= j < ps.len() ==> self@.profiles[j] == ps[j],
            decreases self.profiles.len() - i,
        {
            let mut row = self.profiles[i].duplicate();
            row.is_current = false;
            self.profiles.set(i, row);
            i = i + 1;
        }
        assert(self@.profiles =~= cleared(ps));
    }

    /// Writes the profile at time `now` (see `upserted_profiles`) and reads
    /// it back as the current profile.
    pub fn upsert_leaderboard_profile_at(
        &mut self,
        user_id: &str,
        github_login: &str,
        display_name: &str,
        avatar_url: Option<&str>,
        opted_in: bool,
        auth_token: Option<&str>,
        now: i64,
    ) -> (r: Result<LeaderboardProfile, AppError>)
        requires
            old(self).wf(),
        ensures
            final(self).wf(),
            final(self)@ == (DbView {
                profiles: upserted_profiles(
                    old(self)@.profiles,
                    user_id@,
                    github_login@,
                    display_name@,
                    opt_str_view(avatar_url),
                    opted_in,
                    opt_str_view(auth_token),
                    now,
                ),
                ..old(self)@
            }),
            r matches Ok(p) && current_profile(final(self)@) == Some(p@),
    {
        let existing = self.find_user(user_id);
        let ghost ps = self@.profiles;
        self.clear_current();
        let avatar = match avatar_url {
            Some(a) => Some(owned(a)),
            None => None,
        };
        let token = match auth_token {
            Some(t) => Some(owned(t)),
            None => None,
        };
        let index: usize;
        match existing {
            Some(i) => {
                assert(self@.profiles[i as int] == cleared(ps)[i as int]);
                assert(self@.profiles[i as int] == self.profiles[i as int]@);
                let kept_token = match token {
                    Some(t) => Some(t),
                    None => clone_opt(&self.profiles[i].auth_token),
                };
                let row = ProfileRow {
                    user_id: owned(user_id),
                    github_login: owned(github_login),
                    display_name: owned(display_name),
                    avatar_url: avatar,
                    auth_token: kept_token,
                    opted_in,
                    is_current: true,
                    joined_at: self.profiles[i].joined_at,
                    updated_at: now,
                };
                self.profiles.set(i, row);
                index = i;
                assert(self@.profiles =~= upserted_profiles(
                    ps,
                    user_id@,
                    github_login@,
                    display_name@,
                    opt_str_view(avatar_url),
                    opted_in,
                    opt_str_view(auth_token),
                    now,
                ));
                assert forall|a: int, b: int|
                    0 <= a < b < self@.profiles.len() implies self@.profiles[a].user_id
                    != self@.profiles[b].user_id by {
                    assert(ps[a].user_id != ps[b].user_id);
                }
            },
            None => {
                let row = ProfileRow {
                    user_id: owned(user_id),
                    github_login: owned(github_login),
                    display_name: owned(display_name),
                    avatar_url: avatar,
                    auth_token: token,
                    opted_in,
                    is_current: true,
                    joined_at: now,
                    updated_at: now,
                };
                self.profiles.push(row);
                index = self.profiles.len() - 1;
                assert(self@.profiles =~= upserted_profiles(
                    ps,
                    user_id@,
                    github_login@,
                    display_name@,
                    opt_str_view(avatar_url),
                    opted_in,
                    opt_str_view(auth_token),
                    now,
                ));
                assert forall|a: int, b: int|
                    0 <= a < b < self@.profiles.len() implies self@.profiles[a].user_id
                    != self@.profiles[b].user_id by {
                    if b == self@.profiles.len() - 1 {
                        assert(ps[a].user_id != user_id@);
                    } else {
                        assert(ps[a].user_id != ps[b].user_id);
                    }
                }
            },
        }
        proof {
            let vs = self@.profiles;
            assert(vs[index as int].is_current);
            assert forall|a: int| 0 <= a < vs.len() && vs[a].is_current implies a == index by {}
            assert(has_current(vs));
            let c = current_index(vs);
            assert(c == index);
        }
        Ok(self.profiles[index].to_profile())
    }

    /// Writes the profile (see `upserted_profiles`, the time being the
    /// clock's) and reads it back as the current profile; refused, with the
    /// store unchanged, when the clock cannot be read.
    pub fn upsert_leaderboard_profile(
        &mut self,
        user_id: &str,
        github_login: &str,
        display_name: &str,
        avatar_url: Option<&str>,
        opted_in: bool,
        auth_token: Option<&str>,
    ) -> (r: Result<LeaderboardProfile, AppError>)
        requires
            old(self).wf(),
        ensures
            final(self).wf(),
            clock_failed(r) && final(self)@ == old(self)@ || (exists|now: i64|
                final(self)@ == (DbView {
                    profiles: #[trigger] upserted_profiles(
                        old(self)@.profiles,
                        user_id@,
                        github_login@,
                        display_name@,
                        opt_str_view(avatar_url),
                        opted_in,
                        opt_str_view(auth_token),
                        now,
                    ),
                    ..old(self)@
                })) && (r matches Ok(p) && current_profile(final(self)@) == Some(p@)),
    {
        let now = match now_unix() {
            Ok(t) => t,
            Err(e) => return Err(e),
        };
        self.upsert_leaderboard_profile_at(
            user_id,
            github_login,
            display_name,
            avatar_url,
            opted_in,
            auth_token,
            now,
        )
    }

    /// Sets the current profile's opt-in at time `now`; refused when no one
    /// is signed in.
    pub fn set_leaderboard_opt_in_at(&mut self, opted_in: bool, now: i64) -> (r: Result<
        LeaderboardProfile,
        AppError,
    >)
        requires
            old(self).wf(),
        ensures
            final(self).wf(),
            !has_current(old(self)@.profiles) ==> (final(self)@ == old(self)@ && (r matches Err(
                AppError::InvalidInput(m),
            ) && m@ == sign_in_first_message())),
            has_current(old(self)@.profiles) ==> (final(self)@ == (DbView {
                profiles: opted_profiles(old(self)@.profiles, opted_in, now),
                ..old(self)@
            }) && (r matches Ok(p) && current_profile(final(self)@) == Some(p@))),
    {
        match self.find_current() {
            None => {
                proof {
                    reveal_strlit("请先使用 GitHub 登录");
                }
                Err(AppError::InvalidInput(owned("请先使用 GitHub 登录")))
            },
            Some(i) => {
                let ghost ps = self@.profiles;
                let mut row = self.profiles[i].duplicate();
                row.opted_in = opted_in;
                row.updated_at = now;
                self.profiles.set(i, row);
                assert(self@.profiles =~= opted_profiles(ps, opted_in, now));
                proof {
                    let vs = self@.profiles;
                    assert forall|a: int, b: int|
                        0 <= a < b < vs.len() implies vs[a].user_id != vs[b].user_id && !(
                        vs[a].is_current && vs[b].is_current) by {
                        assert(ps[a].user_id != ps[b].user_id);
                        assert(!(ps[a].is_current && ps[b].is_current));
                    }
                    assert(vs[i as int].is_current);
                    assert forall|a: int| 0 <= a < vs.len() && vs[a].is_current implies a == i by {
                        if a != i {
                            if a < i {
                                assert(!(ps[a].is_current && ps[i as int].is_current));
                            } else {
                                assert(!(ps[i as int].is_current && ps[a].is_current));
                            }
                        }
                    }
                    assert(has_current(vs));
                    assert(current_index(vs) == i);
                }
                Ok(self.profiles[i].to_profile())
            },
        }
    }

    /// Sets the current profile's opt-in, stamped with the clock's time;
    /// refused when no one is signed in, and (the store unchanged) when the
    /// clock cannot be read.
    pub fn set_leaderboard_opt_in(&mut self, opted_in: bool) -> (r: Result<
        LeaderboardProfile,
        AppError,
    >)
        requires
            old(self).wf(),
        ensures
            final(self).wf(),
            !has_current(old(self)@.profiles) ==> (final(self)@ == old(self)@ && (r matches Err(
                AppError::InvalidInput(m),
            ) && m@ == sign_in_first_message())),
            has_current(old(self)@.profiles) ==> clock_failed(r) && final(self)@ == old(self)@ || (
            exists|now: i64|
                final(self)@ == (DbView {
                    profiles: #[trigger] opted_profiles(old(self)@.profiles, opted_in, now),
                    ..old(self)@
                }) && (r matches Ok(p) && current_profile(final(self)@) == Some(p@))),
    {
        match self.get_leaderboard_profile() {
            Ok(Some(_)) => {},
            Ok(None) => {
                proof {
                    reveal_strlit("请先使用 GitHub 登录");
                }
                return Err(AppError::InvalidInput(owned("请先使用 GitHub 登录")));
            },
            Err(e) => return Err(e),
        }
        let now = match now_unix() {
            Ok(t) => t,
            Err(e) => return Err(e),
        };
        self.set_leaderboard_opt_in_at(opted_in, now)
    }

    /// Signs out: forgets every profile and login session (snapshots stay).
    pub fn sign_out_leaderboard(&mut self) -> (r: Result<(), AppError>)
        requires
            old(self).wf(),
        ensures
            final(self).wf(),
            r is Ok,
            final(self)@ == signed_out(old(self)@),
    {
        self.profiles = Vec::new();
        self.sessions = Vec::new();
        assert(self@.profiles =~= Seq::<ProfileRowView>::empty());
        assert(self@.sessions =~= Seq::<SessionRowView>::empty());
        Ok(())
    }

    /// Records a login session with the given id and creation time; refused
    /// when the id is taken.
    pub fn create_github_auth_session_with(
        &mut self,
        device_code: &str,
        expires_at: i64,
        id: String,
        now: i64,
    ) -> (r: Result<String, AppError>)
        requires
            old(self).wf(),
        ensures
            final(self).wf(),
            has_session(old(self)@.sessions, id@) ==> (final(self)@ == old(self)@ && (r matches Err(
                AppError::Database(m),
            ) && m@ == duplicate_session_message())),
            !has_session(old(self)@.sessions, id@) ==> (final(self)@ == (DbView {
                sessions: created_sessions(old(self)@.sessions, id@, device_code@, expires_at, now),
                ..old(self)@
            }) && (r matches Ok(s) && s@ == id@)),
    {
        if self.find_session(id.as_str()).is_some() {
            proof {
                reveal_strlit("UNIQUE constraint failed: ranking_auth_session.id");
            }
            return Err(AppError::Database(owned("UNIQUE constraint failed: ranking_auth_session.id")));
        }
        let ghost ss = self@.sessions;
        let row = SessionRow {
            id: id.clone(),
            state: owned(device_code),
            created_at: now,
            expires_at,
            completed_at: None,
            error: None,
        };
        self.sessions.push(row);
        assert(self@.sessions =~= created_sessions(ss, id@, device_code@, expires_at, now));
        proof {
            let vs = self@.sessions;
            assert forall|a: int, b: int| 0 <= a < b < vs.len() implies vs[a].id != vs[b].id by {
                if b == vs.len() - 1 {
                    assert(ss[a].id != id@);
                } else {
                    assert(ss[a].id != ss[b].id);
                }
            }
        }
        Ok(id)
    }

    /// Records a login session for a device code under a fresh random id,
    /// created now; refused, with the store unchanged, only when the clock
    /// cannot be read, when the random source fails, or when the drawn id
    /// already names a session (so never for that reason on a store without
    /// sessions).
    pub fn create_github_auth_session(&mut self, device_code: &str, expires_at: i64) -> (r: Result<
        String,
        AppError,
    >)
        requires
            old(self).wf(),
        ensures
            final(self).wf(),
            match r {
                Ok(id) => crate::clock::is_uuid_v4_text(id@) && exists|now: i64|
                    !has_session(old(self)@.sessions, id@) && final(self)@ == (DbView {
                        sessions: #[trigger] created_sessions(
                            old(self)@.sessions,
                            id@,
                            device_code@,
                            expires_at,
                            now,
                        ),
                        ..old(self)@
                    }),
                Err(e) => final(self)@ == old(self)@ && (e@ == crate::model::ErrorView::Message(
                    clock_unavailable_message(),
                ) || e@ == crate::model::ErrorView::Message(random_unavailable_message()) || (e@
                    == crate::model::ErrorView::Database(duplicate_session_message()) && exists|
                    id: Seq<char>,
                |
                    crate::clock::is_uuid_v4_text(id) && #[trigger] has_session(
                        old(self)@.sessions,
                        id,
                    ))),
            },
    {
        let now = match now_unix() {
            Ok(t) => t,
            Err(e) => return Err(e),
        };
        let id = match new_session_id() {
            Ok(id) => id,
            Err(e) => return Err(e),
        };
        self.create_github_auth_session_with(device_code, expires_at, id, now)
    }

    /// The login session with the id; refused when there is none.
    pub fn get_github_auth_session(&self, session_id: &str) -> (r: Result<
        GithubAuthSession,
        AppError,
    >)
        requires
            self.wf(),
        ensures
            has_session(self@.sessions, session_id@) ==> (r matches Ok(s) && s@ == session_of_row(
                self@.sessions[session_index(self@.sessions, session_id@)],
            )),
            !has_session(self@.sessions, session_id@) ==> (r matches Err(AppError::InvalidInput(m))
                && m@ == unknown_session_message()),
    {
        match self.find_session(session_id) {
            Some(i) => {
                let row = &self.sessions[i];
                Ok(
                    GithubAuthSession {
                        id: row.id.clone(),
                        device_code: row.state.clone(),
                        expires_at: row.expires_at,
                        completed_at: row.completed_at,
                    },
                )
            },
            None => {
                proof {
                    reveal_strlit("GitHub 登录会话不存在或已失效");
                }
                Err(AppError::InvalidInput(owned("GitHub 登录会话不存在或已失效")))
            },
        }
    }

    /// Marks a login session completed at `now` and clears its error.
    pub fn complete_github_auth_session_at(&mut self, session_id: &str, now: i64) -> (r: Result<
        (),
        AppError,
    >)
        requires
            old(self).wf(),
        ensures
            final(self).wf(),
            r is Ok,
            final(self)@ == (DbView {
                sessions: completed_sessions(old(self)@.sessions, session_id@, now),
                ..old(self)@
            }),
    {
        let ghost ss = self@.sessions;
        match self.find_session(session_id) {
            Some(i) => {
                let mut row = self.sessions[i].duplicate();
                row.completed_at = Some(now);
                row.error = None;
                self.sessions.set(i, row);
                assert(self@.sessions =~= completed_sessions(ss, session_id@, now));
                proof {
                    let vs = self@.sessions;
                    assert forall|a: int, b: int| 0 <= a < b < vs.len() implies vs[a].id
                        != vs[b].id by {
                        assert(ss[a].id != ss[b].id);
                    }
                }
            },
            None => {
                assert(self@.sessions =~= completed_sessions(ss, session_id@, now));
            },
        }
        Ok(())
    }

    /// Marks a login session completed, stamped with the clock's time;
    /// refused, with the store unchanged, when the clock cannot be read.
    pub fn complete_github_auth_session(&mut self, session_id: &str) -> (r: Result<(), AppError>)
        requires
            old(self).wf(),
        ensures
            final(self).wf(),
            clock_failed(r) && final(self)@ == old(self)@ || r is Ok && exists|now: i64|
                final(self)@ == (DbView {
                    sessions: #[trigger] completed_sessions(old(self)@.sessions, session_id@, now),
                    ..old(self)@
                }),
    {
        let now = match now_unix() {
            Ok(t) => t,
            Err(e) => return Err(e),
        };
        self.complete_github_auth_session_at(session_id, now)
    }

    /// Records an error on a login session.
    pub fn fail_github_auth_session(&mut self, session_id: &str, error: &str) -> (r: Result<
        (),
        AppError,
    >)
        requires
            old(self).wf(),
        ensures
            final(self).wf(),
            r is Ok,
            final(self)@ == (DbView {
                sessions: failed_sessions(old(self)@.sessions, session_id@, error@),
                ..old(self)@
            }),
    {
        let ghost ss = self@.sessions;
        match self.find_session(session_id) {
            Some(i) => {
                let mut row = self.sessions[i].duplicate();
                row.error = Some(owned(error));
                self.sessions.set(i, row);
                assert(self@.sessions =~= failed_sessions(ss, session_id@, error@));
                proof {
                    let vs = self@.sessions;
                    assert forall|a: int, b: int| 0 <= a < b < vs.len() implies vs[a].id
                        != vs[b].id by {
                        assert(ss[a].id != ss[b].id);
                    }
                }
            },
            None => {
                assert(self@.sessions =~= failed_sessions(ss, session_id@, error@));
            },
        }
        Ok(())
    }

    /// Writes the local snapshot of a window for a user at time `now` (see
    /// `upserted_snapshots`).
    pub fn upsert_local_snapshot_at(
        &mut self,
        user_id: &str,
        range: LeaderboardRange,
        window_start: i64,
        window_end: i64,
        snapshot: &LocalSnapshot,
        now: i64,
    ) -> (r: Result<(), AppError>)
        requires
            old(self).wf(),
            snapshot.total_fits(),
        ensures
            final(self).wf(),
            r is Ok,
            final(self)@ == (DbView {
                snapshots: upserted_snapshots(
                    old(self)@.snapshots,
                    user_id@,
                    range_key(range),
                    window_start,
                    window_end,
                    *snapshot,
                    now,
                ),
                ..old(self)@
            }),
    {
        let key = range.as_str();
        let ghost ss = self@.snapshots;
        let row = SnapshotRow {
            user_id: owned(user_id),
            range_key: owned(key),
            window_start,
            window_end,
            total_tokens: snapshot.total_tokens(),
            input_tokens: snapshot.input_tokens,
            output_tokens: snapshot.output_tokens,
            cache_read_tokens: snapshot.cache_read_tokens,
            cache_creation_tokens: snapshot.cache_creation_tokens,
            request_count: snapshot.request_count,
            total_cost_usd: snapshot.total_cost_usd.clone(),
            snapshot_at: now,
        };
        match self.find_snapshot(user_id, key, window_start, window_end) {
            Some(i) => {
                self.snapshots.set(i, row);
                assert(self@.snapshots =~= upserted_snapshots(
                    ss,
                    user_id@,
                    key@,
                    window_start,
                    window_end,
                    *snapshot,
                    now,
                ));
                proof {
                    let vs = self@.snapshots;
                    assert forall|a: int, b: int|
                        0 <= a < b < vs.len() implies !snapshot_has_key(
                        vs[b],
                        vs[a].user_id,
                        vs[a].range_key,
                        vs[a].window_start,
                        vs[a].window_end,
                    ) by {
                        assert(!snapshot_has_key(
                            ss[b],
                            ss[a].user_id,
                            ss[a].range_key,
                            ss[a].window_start,
                            ss[a].window_end,
                        ));
                        assert(snapshot_has_key(ss[i as int], user_id@, key@, window_start, window_end));
                        if a == i {
                            assert(!snapshot_has_key(
                                ss[b],
                                ss[i as int].user_id,
                                ss[i as int].range_key,
                                ss[i as int].window_start,
                                ss[i as int].window_end,
                            ));
                        }
                    }
                }
            },
            None => {
                self.snapshots.push(row);
                assert(self@.snapshots =~= upserted_snapshots(
                    ss,
                    user_id@,
                    key@,
                    window_start,
                    window_end,
                    *snapshot,
                    now,
                ));
                proof {
                    let vs = self@.snapshots;
                    assert forall|a: int, b: int|
                        0 <= a < b < vs.len() implies !snapshot_has_key(
                        vs[b],
                        vs[a].user_id,
                        vs[a].range_key,
                        vs[a].window_start,
                        vs[a].window_end,
                    ) by {
                        if b == vs.len() - 1 {
                            assert(!snapshot_has_key(ss[a], user_id@, key@, window_start, window_end));
                        } else {
                            assert(!snapshot_has_key(
                                ss[b],
                                ss[a].user_id,
                                ss[a].range_key,
                                ss[a].window_start,
                                ss[a].window_end,
                            ));
                        }
                    }
                }
            },
        }
        Ok(())
    }

    /// Writes the local snapshot of a window, stamped with the clock's time;
    /// refused, with the store unchanged, when the clock cannot be read.
    pub fn upsert_local_snapshot(
        &mut self,
        user_id: &str,
        range: LeaderboardRange,
        window_start: i64,
        window_end: i64,
        snapshot: &LocalSnapshot,
    ) -> (r: Result<(), AppError>)
        requires
            old(self).wf(),
            snapshot.total_fits(),
        ensures
            final(self).wf(),
            clock_failed(r) && final(self)@ == old(self)@ || r is Ok && exists|now: i64|
                final(self)@ == (DbView {
                    snapshots: #[trigger] upserted_snapshots(
                        old(self)@.snapshots,
                        user_id@,
                        range_key(range),
                        window_start,
                        window_end,
                        *snapshot,
                        now,
                    ),
                    ..old(self)@
                }),
    {
        let now = match now_unix() {
            Ok(t) => t,
            Err(e) => return Err(e),
        };
        self.upsert_local_snapshot_at(user_id, range, window_start, window_end, snapshot, now)
    }
}

/// The login session a stored row reads as.
pub open spec fn session_of_row(r: SessionRowView) -> crate::model::AuthSessionView {
    crate::model::AuthSessionView {
        id: r.id,
        device_code: r.state,
        expires_at: r.expires_at,
        completed_at: r.completed_at,
    }
}

} // verus!
