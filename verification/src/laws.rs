//! Properties of the leaderboard that span several operations.
use crate::float_bits::{
    ext_le, extended, fold_max, is_nan, Extended,
};
use crate::login::{
    ends_session, expired_message, github_failure_prefix, is_known_code, missing_token_message, poll_outcome, status_view, token_error_status,
    LoginPollView,
};
use crate::model::{snapshot_total, AuthSessionView, LocalSnapshot, ProfileView};
use crate::ranking::{
    board_open, entry_of, is_leaderboard_of, joined_prefix, joined_rows, ranks_before, shown_count,
    RankedRowView,
};
use crate::store::{
    completed_sessions, created_sessions, current_index, current_profile, db_wf, failed_sessions,
    has_current, has_session, has_snapshot, has_user, opted_profiles, session_index,
    session_of_row, signed_out, snapshot_has_key, snapshot_index, sessions_keyed, snapshots_keyed,
    upserted_profiles, upserted_snapshots, user_index, DbView, ProfileRowView, SessionRowView,
    SnapshotRowView,
};
use crate::range::{today_start, window_start, LeaderboardRange, LocalMidnight};
use crate::tray::{
    compact_scale, emoji_for_value, part_values, render_parts, usage_suffix_spec, EMOJI_DANGER,
};
use vstd::arithmetic::power2::pow2;
use vstd::prelude::*;

verus! {

// ---------------------------------------------------------------------------
// Profiles
// ---------------------------------------------------------------------------

/// After a profile is written, reading the current profile gives exactly
/// what was written: the given fields and opt-in, the join time of the
/// existing row (or the write time for a new user), and the given backend
/// token, or the stored one when none is given.
pub proof fn law_upsert_reads_back(
    v: DbView,
    user_id: Seq<char>,
    github_login: Seq<char>,
    display_name: Seq<char>,
    avatar_url: Option<Seq<char>>,
    opted_in: bool,
    auth_token: Option<Seq<char>>,
    now: i64,
)
    requires
        db_wf(v),
    ensures
        current_profile(
            DbView {
                profiles: upserted_profiles(
                    v.profiles,
                    user_id,
                    github_login,
                    display_name,
                    avatar_url,
                    opted_in,
                    auth_token,
                    now,
                ),
                ..v
            },
        ) == Some(
            ProfileView {
                user_id,
                github_login,
                display_name,
                avatar_url,
                opted_in,
                joined_at: if has_user(v.profiles, user_id) {
                    v.profiles[user_index(v.profiles, user_id)].joined_at
                } else {
                    now
                },
                auth_token: if auth_token is Some {
                    auth_token
                } else if has_user(v.profiles, user_id) {
                    v.profiles[user_index(v.profiles, user_id)].auth_token
                } else {
                    None
                },
            },
        ),
{
    let ps = v.profiles;
    let qs = upserted_profiles(
        ps,
        user_id,
        github_login,
        display_name,
        avatar_url,
        opted_in,
        auth_token,
        now,
    );
    let k = if has_user(ps, user_id) {
        user_index(ps, user_id)
    } else {
        ps.len() as int
    };
    assert(qs[k].is_current);
    assert forall|a: int| 0 <= a < qs.len() && qs[a].is_current implies a == k by {}
    assert(has_current(qs));
    assert(current_index(qs) == k);
}

/// Setting the opt-in changes only the current profile's opt-in.
pub proof fn law_opt_in_reads_back(v: DbView, opted_in: bool, now: i64)
    requires
        db_wf(v),
        has_current(v.profiles),
    ensures
        current_profile(DbView { profiles: opted_profiles(v.profiles, opted_in, now), ..v })
            == Some(ProfileView { opted_in, ..current_profile(v)->0 }),
{
    let ps = v.profiles;
    let i = current_index(ps);
    let qs = opted_profiles(ps, opted_in, now);
    assert(qs[i].is_current);
    assert forall|a: int| 0 <= a < qs.len() && qs[a].is_current implies a == i by {
        if a != i {
            if a < i {
                assert(!(ps[a].is_current && ps[i].is_current));
            } else {
                assert(!(ps[i].is_current && ps[a].is_current));
            }
        }
    }
    assert(has_current(qs));
    assert(current_index(qs) == i);
}

/// Signing out leaves no one signed in, no login session and no
/// leaderboard to show; the snapshots stay, the invariant holds, and signing
/// out again changes nothing.
pub proof fn law_sign_out(v: DbView)
    requires
        db_wf(v),
    ensures
        current_profile(signed_out(v)) is None,
        forall|id: Seq<char>| !has_session(#[trigger] signed_out(v).sessions, id),
        !board_open(signed_out(v)),
        signed_out(v).snapshots == v.snapshots,
        db_wf(signed_out(v)),
        signed_out(signed_out(v)) == signed_out(v),
{
}

/// Opting out keeps the user signed in with every other field of the
/// profile, and closes the leaderboard: every read then gives the empty
/// board.
pub proof fn law_opt_out_closes_board(v: DbView, now: i64)
    requires
        db_wf(v),
        has_current(v.profiles),
    ensures
        current_profile(DbView { profiles: opted_profiles(v.profiles, false, now), ..v })
            == Some(ProfileView { opted_in: false, ..current_profile(v)->0 }),
        !board_open(DbView { profiles: opted_profiles(v.profiles, false, now), ..v }),
{
    law_opt_in_reads_back(v, false, now);
}

// ---------------------------------------------------------------------------
// Login sessions
// ---------------------------------------------------------------------------

/// A created session reads back with its device code and expiry, not yet
/// completed.
pub proof fn law_created_session_reads_back(
    ss: Seq<SessionRowView>,
    id: Seq<char>,
    device_code: Seq<char>,
    expires_at: i64,
    now: i64,
)
    requires
        sessions_keyed(ss),
        !has_session(ss, id),
    ensures
        has_session(created_sessions(ss, id, device_code, expires_at, now), id),
        session_of_row(
            created_sessions(ss, id, device_code, expires_at, now)[session_index(
                created_sessions(ss, id, device_code, expires_at, now),
                id,
            )],
        ) == (AuthSessionView { id, device_code, expires_at, completed_at: None }),
{
    let qs = created_sessions(ss, id, device_code, expires_at, now);
    let k = ss.len() as int;
    assert(qs[k].id == id);
    assert(has_session(qs, id));
    let c = session_index(qs, id);
    if c != k {
        assert(ss[c].id == id);
    }
}

/// Once a session is completed, every later poll of it reports
/// "completed" with the current profile, and changes nothing.
pub proof fn law_completed_session_polls_completed(v: DbView, id: Seq<char>, t: i64, now: i64)
    requires
        db_wf(v),
        has_session(v.sessions, id),
    ensures
        poll_outcome(DbView { sessions: completed_sessions(v.sessions, id, t), ..v }, id, now) == (
        DbView { sessions: completed_sessions(v.sessions, id, t), ..v },
        LoginPollView::Finished(status_view("completed"@, current_profile(v), None, None)),
        ),
{
    let ss = v.sessions;
    let i = session_index(ss, id);
    let qs = completed_sessions(ss, id, t);
    assert(qs[i].id == id);
    assert(has_session(qs, id));
    let c = session_index(qs, id);
    if c != i {
        if c < i {
            assert(ss[c].id != ss[i].id);
        } else {
            assert(ss[i].id != ss[c].id);
        }
    }
}

/// A pending session polled at or after its expiry is reported expired, and
/// the expiry is recorded on it.
pub proof fn law_expired_session_is_recorded(v: DbView, id: Seq<char>, now: i64)
    requires
        db_wf(v),
        has_session(v.sessions, id),
        v.sessions[session_index(v.sessions, id)].completed_at is None,
        v.sessions[session_index(v.sessions, id)].expires_at <= now,
    ensures
        poll_outcome(v, id, now) == (
            DbView { sessions: failed_sessions(v.sessions, id, "expired"@), ..v },
            LoginPollView::Finished(status_view("expired"@, None, None, Some(expired_message()))),
        ),
{
    let i = session_index(v.sessions, id);
    assert(v.sessions[i].id == id);
}

// ---------------------------------------------------------------------------
// Snapshots and ranking
// ---------------------------------------------------------------------------

/// After the local snapshot of a window is written, the store holds exactly
/// one snapshot for that user, period and window, and its total is the sum
/// of input, output, cache-read and cache-creation tokens.
pub proof fn law_snapshot_total_is_token_sum(
    ss: Seq<SnapshotRowView>,
    user_id: Seq<char>,
    key: Seq<char>,
    window_start: i64,
    window_end: i64,
    snapshot: LocalSnapshot,
    now: i64,
)
    requires
        snapshots_keyed(ss),
        snapshot.total_fits(),
    ensures
        ({
            let qs = upserted_snapshots(ss, user_id, key, window_start, window_end, snapshot, now);
            &&& has_snapshot(qs, user_id, key, window_start, window_end)
            &&& forall|j: int|
                0 <= j < qs.len() && snapshot_has_key(qs[j], user_id, key, window_start, window_end)
                    ==> j == snapshot_index(qs, user_id, key, window_start, window_end)
            &&& qs[snapshot_index(qs, user_id, key, window_start, window_end)].total_tokens
                == snapshot_total(
                snapshot.input_tokens,
                snapshot.output_tokens,
                snapshot.cache_read_tokens,
                snapshot.cache_creation_tokens,
            )
            &&& qs[snapshot_index(qs, user_id, key, window_start, window_end)].request_count
                == snapshot.request_count
        }),
{
    let qs = upserted_snapshots(ss, user_id, key, window_start, window_end, snapshot, now);
    let k = if has_snapshot(ss, user_id, key, window_start, window_end) {
        snapshot_index(ss, user_id, key, window_start, window_end)
    } else {
        ss.len() as int
    };
    assert(snapshot_has_key(qs[k], user_id, key, window_start, window_end));
    assert(has_snapshot(qs, user_id, key, window_start, window_end));
    assert forall|j: int|
        0 <= j < qs.len() && snapshot_has_key(
            qs[j],
            user_id,
            key,
            window_start,
            window_end,
        ) implies j == k by {
        if j != k {
            assert(qs[j] == ss[j]);
            if has_snapshot(ss, user_id, key, window_start, window_end) {
                if j < k {
                    assert(!snapshot_has_key(
                        ss[k],
                        ss[j].user_id,
                        ss[j].range_key,
                        ss[j].window_start,
                        ss[j].window_end,
                    ));
                } else {
                    assert(!snapshot_has_key(
                        ss[j],
                        ss[k].user_id,
                        ss[k].range_key,
                        ss[k].window_start,
                        ss[k].window_end,
                    ));
                }
            }
        }
    }
    let c = snapshot_index(qs, user_id, key, window_start, window_end);
    assert(c == k);
}

/// A leaderboard lists at most a hundred rows, every candidate when there
/// are fewer, numbered 1, 2, 3, ... in order of non-increasing total tokens,
/// requests breaking ties of tokens.
pub proof fn law_leaderboard_is_ordered(
    rows: Seq<RankedRowView>,
    current_user_id: Seq<char>,
    key: Seq<char>,
    res: crate::model::EntriesView,
)
    requires
        is_leaderboard_of(rows, current_user_id, key, res),
    ensures
        res.entries.len() == shown_count(rows.len() as int),
        res.entries.len() <= 100,
        res.range == key,
        forall|i: int| 0 <= i < res.entries.len() ==> (#[trigger] res.entries[i]).rank == i + 1,
        forall|i: int, j: int|
            0 <= i < j < res.entries.len() ==> res.entries[j].total_tokens
                <= res.entries[i].total_tokens,
        forall|i: int, j: int|
            0 <= i < j < res.entries.len() && res.entries[j].total_tokens
                == res.entries[i].total_tokens ==> res.entries[j].request_count
                <= res.entries[i].request_count,
{
    let p = choose|p: Seq<RankedRowView>|
        #[trigger] crate::ranking::sorted_by_rank(p) && p.to_multiset() == rows.to_multiset()
            && crate::ranking::shows_ordering(p, current_user_id, key, res);
    p.to_multiset_ensures();
    rows.to_multiset_ensures();
    let n = shown_count(p.len() as int);
    assert forall|i: int, j: int|
        0 <= i < j < res.entries.len() implies res.entries[j].total_tokens
        <= res.entries[i].total_tokens by {
        assert(res.entries[i] == entry_of(p[i], i + 1, current_user_id));
        assert(res.entries[j] == entry_of(p[j], j + 1, current_user_id));
        assert(!ranks_before(p[j], p[i]));
    }
    assert forall|i: int, j: int|
        0 <= i < j < res.entries.len() && res.entries[j].total_tokens
            == res.entries[i].total_tokens implies res.entries[j].request_count
        <= res.entries[i].request_count by {
        assert(res.entries[i] == entry_of(p[i], i + 1, current_user_id));
        assert(res.entries[j] == entry_of(p[j], j + 1, current_user_id));
        assert(!ranks_before(p[j], p[i]));
    }
    assert forall|i: int| 0 <= i < res.entries.len() implies (#[trigger] res.entries[i]).rank == i
        + 1 by {
        assert(res.entries[i] == entry_of(p[i], i + 1, current_user_id));
    }
}

proof fn lemma_joined_rows_opted_in(
    ss: Seq<SnapshotRowView>,
    ps: Seq<ProfileRowView>,
    key: Seq<char>,
    window_start: i64,
    window_end: i64,
    n: int,
)
    requires
        n <= ss.len(),
    ensures
        forall|j: int|
            0 <= j < joined_prefix(ss, ps, key, window_start, window_end, n).len() ==> {
                let r = #[trigger] joined_prefix(ss, ps, key, window_start, window_end, n)[j];
                let p = ps[user_index(ps, r.user_id)];
                &&& has_user(ps, r.user_id)
                &&& p.opted_in
                &&& r.github_login == p.github_login
                &&& r.display_name == p.display_name
                &&& r.avatar_url == p.avatar_url
                &&& exists|k: int|
                    0 <= k < n && #[trigger] ss[k].user_id == r.user_id && ss[k].range_key == key
                        && ss[k].window_start == window_start && ss[k].window_end == window_end
                        && ss[k].total_tokens == r.total_tokens && ss[k].request_count
                        == r.request_count && ss[k].input_tokens == r.input_tokens
                        && ss[k].output_tokens == r.output_tokens && ss[k].cache_read_tokens
                        == r.cache_read_tokens && ss[k].cache_creation_tokens
                        == r.cache_creation_tokens && ss[k].total_cost_usd == r.total_cost_usd
                        && ss[k].snapshot_at == r.snapshot_at
            },
    decreases n,
{
    if n > 0 {
        lemma_joined_rows_opted_in(ss, ps, key, window_start, window_end, n - 1);
        let rest = joined_prefix(ss, ps, key, window_start, window_end, n - 1);
        let all = joined_prefix(ss, ps, key, window_start, window_end, n);
        assert forall|j: int| 0 <= j < all.len() implies {
            let r = #[trigger] all[j];
            let p = ps[user_index(ps, r.user_id)];
            &&& has_user(ps, r.user_id)
            &&& p.opted_in
            &&& r.github_login == p.github_login
            &&& r.display_name == p.display_name
            &&& r.avatar_url == p.avatar_url
            &&& exists|k: int|
                0 <= k < n && #[trigger] ss[k].user_id == r.user_id && ss[k].range_key == key
                    && ss[k].window_start == window_start && ss[k].window_end == window_end
                    && ss[k].total_tokens == r.total_tokens && ss[k].request_count
                    == r.request_count && ss[k].input_tokens == r.input_tokens
                    && ss[k].output_tokens == r.output_tokens && ss[k].cache_read_tokens
                    == r.cache_read_tokens && ss[k].cache_creation_tokens
                    == r.cache_creation_tokens && ss[k].total_cost_usd == r.total_cost_usd
                    && ss[k].snapshot_at == r.snapshot_at
        } by {
            if j < rest.len() {
                assert(all[j] == rest[j]);
                let r = rest[j];
                let k = choose|k: int|
                    0 <= k < n - 1 && #[trigger] ss[k].user_id == r.user_id && ss[k].range_key == key
                        && ss[k].window_start == window_start && ss[k].window_end == window_end
                        && ss[k].total_tokens == r.total_tokens && ss[k].request_count
                        == r.request_count && ss[k].input_tokens == r.input_tokens
                        && ss[k].output_tokens == r.output_tokens && ss[k].cache_read_tokens
                        == r.cache_read_tokens && ss[k].cache_creation_tokens
                        == r.cache_creation_tokens && ss[k].total_cost_usd == r.total_cost_usd
                        && ss[k].snapshot_at == r.snapshot_at;
                assert(ss[k].user_id == r.user_id);
            } else {
                let k = n - 1;
                assert(ss[k].user_id == all[j].user_id);
            }
        }
    }
}

/// A leaderboard row shows its user's stored profile (login, display name,
/// avatar) and the numbers of that user's stored snapshot of the period and
/// window; it is marked as the current user's exactly when its user id is
/// the current user's.
pub proof fn law_entries_show_stored_rows(
    ss: Seq<SnapshotRowView>,
    ps: Seq<ProfileRowView>,
    key: Seq<char>,
    window_start: i64,
    window_end: i64,
    current_user_id: Seq<char>,
    res: crate::model::EntriesView,
)
    requires
        is_leaderboard_of(
            joined_rows(ss, ps, key, window_start, window_end),
            current_user_id,
            key,
            res,
        ),
    ensures
        forall|i: int|
            0 <= i < res.entries.len() ==> {
                let e = #[trigger] res.entries[i];
                let p = ps[user_index(ps, e.user_id)];
                &&& has_user(ps, e.user_id)
                &&& e.github_login == p.github_login
                &&& e.display_name == p.display_name
                &&& e.avatar_url == p.avatar_url
                &&& e.is_current_user == (e.user_id == current_user_id)
                &&& e.rank == i + 1
                &&& exists|k: int|
                    0 <= k < ss.len() && #[trigger] ss[k].user_id == e.user_id && ss[k].range_key
                        == key && ss[k].window_start == window_start && ss[k].window_end
                        == window_end && ss[k].total_tokens == e.total_tokens
                        && ss[k].request_count == e.request_count && ss[k].input_tokens
                        == e.input_tokens && ss[k].output_tokens == e.output_tokens
                        && ss[k].cache_read_tokens == e.cache_read_tokens
                        && ss[k].cache_creation_tokens == e.cache_creation_tokens
                        && ss[k].total_cost_usd == e.total_cost_usd
            },
{
    let rows = joined_rows(ss, ps, key, window_start, window_end);
    lemma_joined_rows_opted_in(ss, ps, key, window_start, window_end, ss.len() as int);
    let p = choose|p: Seq<RankedRowView>|
        #[trigger] crate::ranking::sorted_by_rank(p) && p.to_multiset() == rows.to_multiset()
            && crate::ranking::shows_ordering(p, current_user_id, key, res);
    p.to_multiset_ensures();
    rows.to_multiset_ensures();
    assert forall|i: int| 0 <= i < res.entries.len() implies {
        let e = #[trigger] res.entries[i];
        let pr = ps[user_index(ps, e.user_id)];
        &&& has_user(ps, e.user_id)
        &&& e.github_login == pr.github_login
        &&& e.display_name == pr.display_name
        &&& e.avatar_url == pr.avatar_url
        &&& e.is_current_user == (e.user_id == current_user_id)
        &&& e.rank == i + 1
        &&& exists|k: int|
            0 <= k < ss.len() && #[trigger] ss[k].user_id == e.user_id && ss[k].range_key == key
                && ss[k].window_start == window_start && ss[k].window_end == window_end
                && ss[k].total_tokens == e.total_tokens && ss[k].request_count == e.request_count
                && ss[k].input_tokens == e.input_tokens && ss[k].output_tokens == e.output_tokens
                && ss[k].cache_read_tokens == e.cache_read_tokens && ss[k].cache_creation_tokens
                == e.cache_creation_tokens && ss[k].total_cost_usd == e.total_cost_usd
    } by {
        assert(res.entries[i] == entry_of(p[i], i + 1, current_user_id));
        assert(p.contains(p[i]));
        assert(p.to_multiset().count(p[i]) > 0);
        assert(rows.contains(p[i]));
        let j = choose|j: int| 0 <= j < rows.len() && rows[j] == p[i];
        assert(rows[j] == p[i]);
        let r = rows[j];
        let k = choose|k: int|
            0 <= k < ss.len() && #[trigger] ss[k].user_id == r.user_id && ss[k].range_key == key
                && ss[k].window_start == window_start && ss[k].window_end == window_end
                && ss[k].total_tokens == r.total_tokens && ss[k].request_count == r.request_count
                && ss[k].input_tokens == r.input_tokens && ss[k].output_tokens == r.output_tokens
                && ss[k].cache_read_tokens == r.cache_read_tokens && ss[k].cache_creation_tokens
                == r.cache_creation_tokens && ss[k].total_cost_usd == r.total_cost_usd
                && ss[k].snapshot_at == r.snapshot_at;
        assert(ss[k].user_id == res.entries[i].user_id);
    }
}

/// Only users who opted in are ranked: every row of a leaderboard built from
/// the stored snapshots and profiles belongs to a stored profile that has
/// opted in.
pub proof fn law_only_opted_in_users_are_ranked(
    ss: Seq<SnapshotRowView>,
    ps: Seq<ProfileRowView>,
    key: Seq<char>,
    window_start: i64,
    window_end: i64,
    current_user_id: Seq<char>,
    res: crate::model::EntriesView,
)
    requires
        is_leaderboard_of(
            joined_rows(ss, ps, key, window_start, window_end),
            current_user_id,
            key,
            res,
        ),
    ensures
        forall|i: int|
            0 <= i < res.entries.len() ==> has_user(ps, (#[trigger] res.entries[i]).user_id)
                && ps[user_index(ps, res.entries[i].user_id)].opted_in,
{
    let rows = joined_rows(ss, ps, key, window_start, window_end);
    lemma_joined_rows_opted_in(ss, ps, key, window_start, window_end, ss.len() as int);
    let p = choose|p: Seq<RankedRowView>|
        #[trigger] crate::ranking::sorted_by_rank(p) && p.to_multiset() == rows.to_multiset()
            && crate::ranking::shows_ordering(p, current_user_id, key, res);
    p.to_multiset_ensures();
    rows.to_multiset_ensures();
    assert forall|i: int| 0 <= i < res.entries.len() implies has_user(
        ps,
        (#[trigger] res.entries[i]).user_id,
    ) && ps[user_index(ps, res.entries[i].user_id)].opted_in by {
        assert(res.entries[i] == entry_of(p[i], i + 1, current_user_id));
        assert(p.contains(p[i]));
        assert(p.to_multiset().count(p[i]) > 0);
        assert(rows.contains(p[i]));
        let j = choose|j: int| 0 <= j < rows.len() && rows[j] == p[i];
        assert(rows[j] == p[i]);
    }
}

/// A user who opted out keeps the login but is ranked in no leaderboard:
/// after the current profile's opt-in is turned off, no row of a
/// leaderboard built from the profiles belongs to that user.
pub proof fn law_opted_out_user_is_not_ranked(
    v: DbView,
    now: i64,
    ss: Seq<SnapshotRowView>,
    key: Seq<char>,
    window_start: i64,
    window_end: i64,
    current_user_id: Seq<char>,
    res: crate::model::EntriesView,
)
    requires
        db_wf(v),
        has_current(v.profiles),
        is_leaderboard_of(
            joined_rows(ss, opted_profiles(v.profiles, false, now), key, window_start, window_end),
            current_user_id,
            key,
            res,
        ),
    ensures
        current_profile(DbView { profiles: opted_profiles(v.profiles, false, now), ..v })
            == Some(ProfileView { opted_in: false, ..current_profile(v)->0 }),
        forall|i: int|
            0 <= i < res.entries.len() ==> (#[trigger] res.entries[i]).user_id != current_profile(
                v,
            )->0.user_id,
{
    law_opt_in_reads_back(v, false, now);
    let ps = v.profiles;
    let k = current_index(ps);
    let qs = opted_profiles(ps, false, now);
    let u = ps[k].user_id;
    assert(current_profile(v)->0.user_id == u);
    law_only_opted_in_users_are_ranked(ss, qs, key, window_start, window_end, current_user_id, res);
    assert(qs[k].user_id == u);
    assert(has_user(qs, u));
    let c = user_index(qs, u);
    if c != k {
        if c < k {
            assert(ps[c].user_id != ps[k].user_id);
        } else {
            assert(ps[k].user_id != ps[c].user_id);
        }
    }
    assert(!qs[k].opted_in);
}

// ---------------------------------------------------------------------------
// Tray summaries
// ---------------------------------------------------------------------------

proof fn lemma_ext_le_transitive(x: Extended, y: Extended, z: Extended)
    requires
        ext_le(x, y),
        ext_le(y, z),
    ensures
        ext_le(x, z),
{
}

/// The folded maximum is at least every number that is not NaN.
pub proof fn lemma_fold_max_bounds(values: Seq<u64>, i: int)
    requires
        0 <= i < values.len(),
        !is_nan(values[i]),
    ensures
        ext_le(extended(values[i]), fold_max(values)),
    decreases values.len(),
{
    let acc = fold_max(values.drop_last());
    let last = values.last();
    if i == values.len() - 1 {
        if !ext_le(acc, extended(last)) {
            match (acc, extended(last)) {
                (Extended::Finite(a), Extended::Finite(b)) => {},
                _ => {},
            }
        }
    } else {
        assert(values.drop_last()[i] == values[i]);
        lemma_fold_max_bounds(values.drop_last(), i);
        if !is_nan(last) && ext_le(acc, extended(last)) {
            lemma_ext_le_transitive(extended(values[i]), acc, extended(last));
        }
    }
}

/// When any shown utilization is at least 90%, the summary starts with the
/// red mark, whatever the other utilizations are.
pub proof fn law_highest_utilization_sets_mark(parts: Seq<(Seq<char>, u64)>, i: int)
    requires
        0 <= i < parts.len(),
        !is_nan(parts[i].1),
        ext_le(Extended::Finite(90 * (pow2(1074) as int)), extended(parts[i].1)),
    ensures
        emoji_for_value(fold_max(part_values(parts))) == EMOJI_DANGER@,
        render_parts(parts) == EMOJI_DANGER@ + " "@ + crate::tray::join_parts(parts),
{
    let values = part_values(parts);
    assert(values[i] == parts[i].1);
    lemma_fold_max_bounds(values, i);
    lemma_ext_le_transitive(
        Extended::Finite(90 * (pow2(1074) as int)),
        extended(values[i]),
        fold_max(values),
    );
}

// ---------------------------------------------------------------------------
// Status-bar scale, tray suffix, GitHub codes and windows
// ---------------------------------------------------------------------------

/// The status bar divides a count of at least a thousand by the largest of
/// 10^9 (B), 10^6 (M) and 10^3 (K) that does not exceed it, so the quotient
/// is below a thousand unless the unit is B; the decimal place is dropped
/// exactly when the quotient is at least 100.
pub proof fn law_compact_scale_is_largest_unit(tokens: u64)
    requires
        tokens >= 1000,
    ensures
        ({
            let (unit, d, whole) = compact_scale(tokens);
            &&& d == 1_000 || d == 1_000_000 || d == 1_000_000_000
            &&& d <= tokens
            &&& d == 1_000_000_000 || tokens < d * 1000
            &&& unit == if d == 1_000_000_000 {
                "B"@
            } else if d == 1_000_000 {
                "M"@
            } else {
                "K"@
            }
            &&& whole == (tokens >= 100 * d)
        }),
        1_000_000 <= tokens < 1_000_000_000 ==> compact_scale(tokens) == (
            "M"@,
            1_000_000int,
            tokens >= 100_000_000,
        ),
        tokens < 1_000_000 ==> compact_scale(tokens) == ("K"@, 1_000int, tokens >= 100_000),
        tokens >= 1_000_000_000 ==> compact_scale(tokens) == (
            "B"@,
            1_000_000_000int,
            tokens >= 100_000_000_000,
        ),
{
}

/// An enabled usage script with a cached summary `s` gives the suffix
/// " · s" whatever the provider's category and the subscription cache, and
/// keeps the script cache.
pub proof fn law_enabled_script_summary_wins(
    s: Seq<char>,
    category: Option<Seq<char>>,
    subscription: Option<Seq<char>>,
)
    ensures
        usage_suffix_spec(true, Some(s), category, subscription) == (
            Some(" · "@ + s),
            false,
        ),
{
}

/// Without an enabled script summary, an official provider shows its cached
/// subscription summary and any other provider shows none; the script cache
/// is dropped exactly when the script is disabled.
pub proof fn law_suffix_without_script_summary(
    enabled: bool,
    script: Option<Seq<char>>,
    category: Option<Seq<char>>,
    subscription: Option<Seq<char>>,
)
    requires
        !(enabled && script is Some),
    ensures
        usage_suffix_spec(enabled, script, category, subscription).1 == !enabled,
        category == Some("official"@) && subscription is Some ==> usage_suffix_spec(
            enabled,
            script,
            category,
            subscription,
        ).0 == Some(" · "@ + subscription->0),
        category != Some("official"@) ==> usage_suffix_spec(
            enabled,
            script,
            category,
            subscription,
        ).0 is None,
        !enabled ==> usage_suffix_spec(enabled, script, category, subscription).1,
{
}

/// GitHub's device-flow error codes: "expired_token" and "token_expired"
/// end the session as expired, "access_denied" as denied (both recorded on
/// the session); "authorization_pending" keeps it pending with GitHub's
/// interval or 5 s, "slow_down" with GitHub's interval or 10 s and its
/// description. The texts used are the expiry message, the prefix
/// "GitHub 授权失败: " of a refused unknown code, and the refusal of an
/// answer with neither an error nor a token.
pub proof fn law_github_error_codes(interval: Option<u64>, description: Option<Seq<char>>)
    ensures
        is_known_code("expired_token"@) && ends_session("expired_token"@),
        is_known_code("token_expired"@) && ends_session("token_expired"@),
        token_error_status("expired_token"@, interval, description) == status_view(
            "expired"@,
            None,
            None,
            Some("GitHub 验证码已过期，请重新登录。"@),
        ),
        token_error_status("token_expired"@, interval, description) == status_view(
            "expired"@,
            None,
            None,
            Some("GitHub 验证码已过期，请重新登录。"@),
        ),
        is_known_code("access_denied"@) && ends_session("access_denied"@),
        token_error_status("access_denied"@, interval, description) == status_view(
            "denied"@,
            None,
            None,
            Some("GitHub 授权已取消。"@),
        ),
        is_known_code("authorization_pending"@) && !ends_session("authorization_pending"@),
        token_error_status("authorization_pending"@, interval, description) == status_view(
            "pending"@,
            None,
            Some(
                match interval {
                    Some(v) => v,
                    None => 5,
                },
            ),
            None,
        ),
        is_known_code("slow_down"@) && !ends_session("slow_down"@),
        token_error_status("slow_down"@, interval, description) == status_view(
            "pending"@,
            None,
            Some(
                match interval {
                    Some(v) => v,
                    None => 10,
                },
            ),
            description,
        ),
        expired_message() == "GitHub 验证码已过期，请重新登录。"@,
        github_failure_prefix() == "GitHub 授权失败: "@,
        missing_token_message() == "GitHub 响应缺少 access_token"@,
{
    reveal_strlit("expired_token");
    reveal_strlit("token_expired");
    reveal_strlit("access_denied");
    reveal_strlit("authorization_pending");
    reveal_strlit("slow_down");
    assert("expired_token"@ != "authorization_pending"@ && "expired_token"@ != "slow_down"@) by {
        assert("expired_token"@.len() != "authorization_pending"@.len());
        assert("expired_token"@.len() != "slow_down"@.len());
    }
    assert("token_expired"@ != "authorization_pending"@ && "token_expired"@ != "slow_down"@) by {
        assert("token_expired"@.len() != "authorization_pending"@.len());
        assert("token_expired"@.len() != "slow_down"@.len());
    }
    assert("access_denied"@ != "authorization_pending"@ && "access_denied"@ != "slow_down"@) by {
        assert("access_denied"@.len() != "authorization_pending"@.len());
        assert("access_denied"@.len() != "slow_down"@.len());
    }
    assert("access_denied"@ != "expired_token"@ && "access_denied"@ != "token_expired"@) by {
        assert("access_denied"@[0] != "expired_token"@[0]);
        assert("access_denied"@[0] != "token_expired"@[0]);
    }
    assert("authorization_pending"@ != "slow_down"@) by {
        assert("authorization_pending"@.len() != "slow_down"@.len());
    }
    assert("slow_down"@ != "expired_token"@ && "slow_down"@ != "token_expired"@ && "slow_down"@
        != "access_denied"@);
    assert("authorization_pending"@ != "expired_token"@ && "authorization_pending"@
        != "token_expired"@ && "authorization_pending"@ != "access_denied"@);
}

/// Today's window starts at today's midnight when the zone names it (the
/// earlier instant when midnight happens twice), and at `now` otherwise; a
/// period's window starts at its midnight likewise, and when that midnight
/// is skipped a whole day before the same time of that day: 1, 7 or 30
/// days before `now` for today, 7 days and 30 days.
pub proof fn law_windows_start_at_midnight(now: i64, t: i64, later: i64, r: LeaderboardRange)
    ensures
        today_start(now, LocalMidnight::Single(t)) == t,
        today_start(now, LocalMidnight::Ambiguous(t, later)) == t,
        today_start(now, LocalMidnight::Missing) == now,
        today_start(now, LocalMidnight::NoDayStart) == now,
        window_start(r, now, LocalMidnight::Single(t)) == t,
        window_start(r, now, LocalMidnight::Ambiguous(t, later)) == t,
        window_start(r, now, LocalMidnight::NoDayStart) == now,
        window_start(LeaderboardRange::Today, now, LocalMidnight::Missing) == now - 86_400,
        window_start(LeaderboardRange::SevenDays, now, LocalMidnight::Missing) == now - 7 * 86_400,
        window_start(LeaderboardRange::ThirtyDays, now, LocalMidnight::Missing) == now - 30
            * 86_400,
{
}

} // verus!
