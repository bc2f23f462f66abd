//! Ranking of the stored snapshots of one period and window: the opted-in
//! users ordered by total tokens, then request count (both descending),
//! then GitHub login (ascending), the first hundred numbered from 1.
use crate::clock::{clock_failed, now_unix};
use crate::model::{
    snapshot_of_summary, AppError, EntriesView, EntryView, LeaderboardEntriesResult,
    LeaderboardEntry, LocalSnapshot, UsageSummary,
};
use crate::range::{range_key, LeaderboardRange};
use crate::store::{
    current_profile, has_user, profiles_keyed, upserted_snapshots, user_index, Database, DbView,
    ProfileRow, ProfileRowView, SnapshotRow, SnapshotRowView,
};
use crate::text::{
    clone_opt, lemma_text_lt_irreflexive, lemma_text_lt_total, lemma_text_lt_transitive,
    opt_view, owned, str_eq, text_less, text_lt,
};
use vstd::prelude::*;

verus! {

broadcast use vstd::seq_lib::group_to_multiset_ensures;

/// The most rows a leaderboard shows.
pub const LEADERBOARD_LIMIT: usize = 100;

/// A snapshot joined with its user's profile.
pub struct RankedRow {
    pub user_id: String,
    pub github_login: String,
    pub display_name: String,
    pub avatar_url: Option<String>,
    pub total_tokens: i64,
    pub input_tokens: i64,
    pub output_tokens: i64,
    pub cache_read_tokens: i64,
    pub cache_creation_tokens: i64,
    pub request_count: i64,
    pub total_cost_usd: String,
    pub snapshot_at: i64,
}

/// The view of a joined row.
pub struct RankedRowView {
    pub user_id: Seq<char>,
    pub github_login: Seq<char>,
    pub display_name: Seq<char>,
    pub avatar_url: Option<Seq<char>>,
    pub total_tokens: i64,
    pub input_tokens: i64,
    pub output_tokens: i64,
    pub cache_read_tokens: i64,
    pub cache_creation_tokens: i64,
    pub request_count: i64,
    pub total_cost_usd: Seq<char>,
    pub snapshot_at: i64,
}

impl View for RankedRow {
    type V = RankedRowView;

    open spec fn view(&self) -> RankedRowView {
        RankedRowView {
            user_id: self.user_id@,
            github_login: self.github_login@,
            display_name: self.display_name@,
            avatar_url: opt_view(self.avatar_url),
            total_tokens: self.total_tokens,
            input_tokens: self.input_tokens,
            output_tokens: self.output_tokens,
            cache_read_tokens: self.cache_read_tokens,
            cache_creation_tokens: self.cache_creation_tokens,
            request_count: self.request_count,
            total_cost_usd: self.total_cost_usd@,
            snapshot_at: self.snapshot_at,
        }
    }
}

impl RankedRow {
    fn duplicate(&self) -> (r: RankedRow)
        ensures
            r@ == self@,
    {
        RankedRow {
            user_id: self.user_id.clone(),
            github_login: self.github_login.clone(),
            display_name: self.display_name.clone(),
            avatar_url: clone_opt(&self.avatar_url),
            total_tokens: self.total_tokens,
            input_tokens: self.input_tokens,
            output_tokens: self.output_tokens,
            cache_read_tokens: self.cache_read_tokens,
            cache_creation_tokens: self.cache_creation_tokens,
            request_count: self.request_count,
            total_cost_usd: self.total_cost_usd.clone(),
            snapshot_at: self.snapshot_at,
        }
    }
}

/// A snapshot joined with a profile.
pub open spec fn joined_row(s: SnapshotRowView, p: ProfileRowView) -> RankedRowView {
    RankedRowView {
        user_id: s.user_id,
        github_login: p.github_login,
        display_name: p.display_name,
        avatar_url: p.avatar_url,
        total_tokens: s.total_tokens,
        input_tokens: s.input_tokens,
        output_tokens: s.output_tokens,
        cache_read_tokens: s.cache_read_tokens,
        cache_creation_tokens: s.cache_creation_tokens,
        request_count: s.request_count,
        total_cost_usd: s.total_cost_usd,
        snapshot_at: s.snapshot_at,
    }
}

/// Whether a snapshot takes part in the ranking of a period and window:
/// it belongs to them and its user has an opted-in profile.
pub open spec fn snapshot_qualifies(
    s: SnapshotRowView,
    ps: Seq<ProfileRowView>,
    key: Seq<char>,
    window_start: i64,
    window_end: i64,
) -> bool {
    &&& s.range_key == key
    &&& s.window_start == window_start
    &&& s.window_end == window_end
    &&& has_user(ps, s.user_id)
    &&& ps[user_index(ps, s.user_id)].opted_in
}

/// The qualifying snapshots among the first `n`, joined with their
/// profiles, in table order.
pub open spec fn joined_prefix(
    ss: Seq<SnapshotRowView>,
    ps: Seq<ProfileRowView>,
    key: Seq<char>,
    window_start: i64,
    window_end: i64,
    n: int,
) -> Seq<RankedRowView>
    decreases n,
{
    if n <= 0 {
        Seq::empty()
    } else {
        let rest = joined_prefix(ss, ps, key, window_start, window_end, n - 1);
        let s = ss[n - 1];
        if snapshot_qualifies(s, ps, key, window_start, window_end) {
            rest.push(joined_row(s, ps[user_index(ps, s.user_id)]))
        } else {
            rest
        }
    }
}

/// All qualifying snapshots joined with their profiles.
pub open spec fn joined_rows(
    ss: Seq<SnapshotRowView>,
    ps: Seq<ProfileRowView>,
    key: Seq<char>,
    window_start: i64,
    window_end: i64,
) -> Seq<RankedRowView> {
    joined_prefix(ss, ps, key, window_start, window_end, ss.len() as int)
}

/// Whether `a` ranks strictly before `b`.
pub open spec fn ranks_before(a: RankedRowView, b: RankedRowView) -> bool {
    a.total_tokens > b.total_tokens || (a.total_tokens == b.total_tokens && (a.request_count
        > b.request_count || (a.request_count == b.request_count && text_lt(
        a.github_login,
        b.github_login,
    ))))
}

/// No row ranks strictly before an earlier one.
pub open spec fn sorted_by_rank(s: Seq<RankedRowView>) -> bool {
    forall|i: int, j: int| 0 <= i < j < s.len() ==> !ranks_before(s[j], s[i])
}

/// The leaderboard row of a joined row at a rank.
pub open spec fn entry_of(r: RankedRowView, rank: int, current_user_id: Seq<char>) -> EntryView {
    EntryView {
        rank: rank as i64,
        user_id: r.user_id,
        github_login: r.github_login,
        display_name: r.display_name,
        avatar_url: r.avatar_url,
        total_tokens: r.total_tokens,
        input_tokens: r.input_tokens,
        output_tokens: r.output_tokens,
        cache_read_tokens: r.cache_read_tokens,
        cache_creation_tokens: r.cache_creation_tokens,
        request_count: r.request_count,
        total_cost_usd: r.total_cost_usd,
        is_current_user: r.user_id == current_user_id,
    }
}

/// The latest snapshot time among rows.
pub open spec fn latest_snapshot(s: Seq<RankedRowView>) -> Option<i64>
    decreases s.len(),
{
    if s.len() == 0 {
        None
    } else {
        match latest_snapshot(s.drop_last()) {
            None => Some(s.last().snapshot_at),
            Some(m) => Some(if m >= s.last().snapshot_at {
                m
            } else {
                s.last().snapshot_at
            }),
        }
    }
}

/// The number of rows shown for `n` candidates.
pub open spec fn shown_count(n: int) -> int {
    if n < 100 {
        n
    } else {
        100
    }
}

/// `res` shows the ordering `p` of the candidate rows: its first hundred
/// rows, ranked from 1, the current user marked, stamped with the latest
/// snapshot time among them.
pub open spec fn shows_ordering(
    p: Seq<RankedRowView>,
    current_user_id: Seq<char>,
    key: Seq<char>,
    res: EntriesView,
) -> bool {
    let n = shown_count(p.len() as int);
    &&& res.range == key
    &&& res.entries.len() == n
    &&& forall|i: int| 0 <= i < n ==> res.entries[i] == entry_of(p[i], i + 1, current_user_id)
    &&& res.updated_at == latest_snapshot(p.subrange(0, n))
}

/// `res` is a leaderboard of the candidate rows: it shows some ordering of
/// exactly those rows that is sorted by rank (rows that tie on tokens,
/// requests and login may come in either order).
pub open spec fn is_leaderboard_of(
    rows: Seq<RankedRowView>,
    current_user_id: Seq<char>,
    key: Seq<char>,
    res: EntriesView,
) -> bool {
    exists|p: Seq<RankedRowView>|
        #[trigger] sorted_by_rank(p) && p.to_multiset() == rows.to_multiset() && shows_ordering(
            p,
            current_user_id,
            key,
            res,
        )
}

// ---------------------------------------------------------------------------
// Order lemmas
// ---------------------------------------------------------------------------

/// No row ranks before itself.
pub proof fn lemma_ranks_before_irreflexive(a: RankedRowView)
    ensures
        !ranks_before(a, a),
{
    lemma_text_lt_irreflexive(a.github_login);
}

/// Ranking is transitive.
pub proof fn lemma_ranks_before_transitive(a: RankedRowView, b: RankedRowView, c: RankedRowView)
    requires
        ranks_before(a, b),
        ranks_before(b, c),
    ensures
        ranks_before(a, c),
{
    if a.total_tokens == b.total_tokens && b.total_tokens == c.total_tokens && a.request_count
        == b.request_count && b.request_count == c.request_count {
        lemma_text_lt_transitive(a.github_login, b.github_login, c.github_login);
    }
}

/// Of two rows, either one ranks before the other or they tie on tokens,
/// requests and login.
pub proof fn lemma_ranks_total(a: RankedRowView, b: RankedRowView)
    ensures
        ranks_before(a, b) || ranks_before(b, a) || (a.total_tokens == b.total_tokens
            && a.request_count == b.request_count && a.github_login == b.github_login),
{
    lemma_text_lt_total(a.github_login, b.github_login);
}

proof fn lemma_insert_sorted(s: Seq<RankedRowView>, x: RankedRowView, k: int)
    requires
        sorted_by_rank(s),
        0 <= k <= s.len(),
        forall|i: int| 0 <= i < k ==> !ranks_before(x, #[trigger] s[i]),
        k < s.len() ==> ranks_before(x, s[k]),
    ensures
        sorted_by_rank(s.insert(k, x)),
{
    let q = s.insert(k, x);
    assert forall|i: int, j: int| 0 <= i < j < q.len() implies !ranks_before(q[j], q[i]) by {
        if j < k {
        } else if j == k {
            assert(q[i] == s[i]);
        } else if i < k {
            assert(q[j] == s[j - 1]);
            assert(q[i] == s[i]);
        } else if i == k {
            assert(q[j] == s[j - 1]);
            if ranks_before(s[j - 1], x) {
                lemma_ranks_before_transitive(s[j - 1], x, s[k]);
                if j - 1 == k {
                    lemma_ranks_before_irreflexive(s[k]);
                }
            }
        } else {
            assert(q[j] == s[j - 1]);
            assert(q[i] == s[i - 1]);
        }
    }
}

// ---------------------------------------------------------------------------
// Execution
// ---------------------------------------------------------------------------

fn ranks_before_exec(a: &RankedRow, b: &RankedRow) -> (r: bool)
    ensures
        r == ranks_before(a@, b@),
{
    if a.total_tokens != b.total_tokens {
        a.total_tokens > b.total_tokens
    } else if a.request_count != b.request_count {
        a.request_count > b.request_count
    } else {
        text_less(a.github_login.as_str(), b.github_login.as_str())
    }
}

fn find_profile(profiles: &Vec<ProfileRow>, user_id: &str) -> (r: Option<usize>)
    requires
        profiles_keyed(profiles@.map_values(|p: ProfileRow| p@)),
    ensures
        match r {
            Some(i) => has_user(profiles@.map_values(|p: ProfileRow| p@), user_id@) && i
                == user_index(profiles@.map_values(|p: ProfileRow| p@), user_id@) && i
                < profiles.len(),
            None => !has_user(profiles@.map_values(|p: ProfileRow| p@), user_id@),
        },
{
    let ghost ps = profiles@.map_values(|p: ProfileRow| p@);
    let mut i: usize = 0;
    while i < profiles.len()
        invariant
            i <= profiles.len(),
            ps == profiles@.map_values(|p: ProfileRow| p@),
            profiles_keyed(ps),
            forall|j: int| 0 <= j < i ==> ps[j].user_id != user_id@,
        decreases profiles.len() - i,
    {
        if str_eq(profiles[i].user_id.as_str(), user_id) {
            assert(ps[i as int] == profiles[i as int]@);
            assert(has_user(ps, user_id@));
            let ghost c = user_index(ps, user_id@);
            assert(c == i) by {
                if c != i as int {
                    if c < i {
                        assert(ps[c].user_id != ps[i as int].user_id);
                    } else {
                        assert(ps[i as int].user_id != ps[c].user_id);
                    }
                }
            }
            return Some(i);
        }
        i = i + 1;
    }
    None
}

fn join_snapshots(
    profiles: &Vec<ProfileRow>,
    snapshots: &Vec<SnapshotRow>,
    key: &str,
    window_start: i64,
    window_end: i64,
) -> (rows: Vec<RankedRow>)
    requires
        profiles_keyed(profiles@.map_values(|p: ProfileRow| p@)),
    ensures
        rows@.map_values(|r: RankedRow| r@) == joined_rows(
            snapshots@.map_values(|s: SnapshotRow| s@),
            profiles@.map_values(|p: ProfileRow| p@),
            key@,
            window_start,
            window_end,
        ),
{
    let ghost ps = profiles@.map_values(|p: ProfileRow| p@);
    let ghost ss = snapshots@.map_values(|s: SnapshotRow| s@);
    let mut rows: Vec<RankedRow> = Vec::new();
    let mut i: usize = 0;
    while i < snapshots.len()
        invariant
            i <= snapshots.len(),
            ps == profiles@.map_values(|p: ProfileRow| p@),
            ss == snapshots@.map_values(|s: SnapshotRow| s@),
            profiles_keyed(ps),
            rows@.map_values(|r: RankedRow| r@) == joined_prefix(
                ss,
                ps,
                key@,
                window_start,
                window_end,
                i as int,
            ),
        decreases snapshots.len() - i,
    {
        let s = &snapshots[i];
        assert(ss[i as int] == s@);
        let ghost before = rows@.map_values(|r: RankedRow| r@);
        if str_eq(s.range_key.as_str(), key) && s.window_start == window_start && s.window_end
            == window_end {
            match find_profile(profiles, s.user_id.as_str()) {
                Some(j) => {
                    let p = &profiles[j];
                    assert(ps[j as int] == p@);
                    if p.opted_in {
                        let row = RankedRow {
                            user_id: s.user_id.clone(),
                            github_login: p.github_login.clone(),
                            display_name: p.display_name.clone(),
                            avatar_url: clone_opt(&p.avatar_url),
                            total_tokens: s.total_tokens,
                            input_tokens: s.input_tokens,
                            output_tokens: s.output_tokens,
                            cache_read_tokens: s.cache_read_tokens,
                            cache_creation_tokens: s.cache_creation_tokens,
                            request_count: s.request_count,
                            total_cost_usd: s.total_cost_usd.clone(),
                            snapshot_at: s.snapshot_at,
                        };
                        rows.push(row);
                        assert(rows@.map_values(|r: RankedRow| r@) =~= before.push(
                            joined_row(ss[i as int], ps[j as int]),
                        ));
                    }
                },
                None => {},
            }
        }
        i = i + 1;
    }
    rows
}

fn sort_by_rank(rows: &Vec<RankedRow>) -> (sorted: Vec<RankedRow>)
    ensures
        sorted_by_rank(sorted@.map_values(|r: RankedRow| r@)),
        sorted@.map_values(|r: RankedRow| r@).to_multiset() == rows@.map_values(
            |r: RankedRow| r@,
        ).to_multiset(),
{
    let ghost rv = rows@.map_values(|r: RankedRow| r@);
    let mut sorted: Vec<RankedRow> = Vec::new();
    let mut k: usize = 0;
    proof {
        assert(sorted@.map_values(|r: RankedRow| r@) =~= Seq::<RankedRowView>::empty());
        assert(rv.subrange(0, 0) =~= Seq::<RankedRowView>::empty());
    }
    while k < rows.len()
        invariant
            k <= rows.len(),
            rv == rows@.map_values(|r: RankedRow| r@),
            sorted_by_rank(sorted@.map_values(|r: RankedRow| r@)),
            sorted@.map_values(|r: RankedRow| r@).to_multiset() == rv.subrange(
                0,
                k as int,
            ).to_multiset(),
        decreases rows.len() - k,
    {
        let x = rows[k].duplicate();
        let ghost sv = sorted@.map_values(|r: RankedRow| r@);
        let mut pos: usize = 0;
        while pos < sorted.len() && !ranks_before_exec(&x, &sorted[pos])
            invariant
                pos <= sorted.len(),
                sv == sorted@.map_values(|r: RankedRow| r@),
                forall|i: int| 0 <= i < pos ==> !ranks_before(x@, #[trigger] sv[i]),
            decreases sorted.len() - pos,
        {
            pos = pos + 1;
        }
        proof {
            lemma_insert_sorted(sv, x@, pos as int);
            assert(rv.subrange(0, k + 1) =~= rv.subrange(0, k as int).push(rv[k as int]));
            assert(rv[k as int] == x@);
        }
        sorted.insert(pos, x);
        proof {
            assert(sorted@.map_values(|r: RankedRow| r@) =~= sv.insert(pos as int, rv[k as int]));
        }
        k = k + 1;
    }
    proof {
        assert(rv.subrange(0, rows.len() as int) =~= rv);
    }
    sorted
}

fn entry_from(r: &RankedRow, rank: i64, current_user_id: &str) -> (e: LeaderboardEntry)
    ensures
        e@ == entry_of(r@, rank as int, current_user_id@),
{
    LeaderboardEntry {
        rank,
        user_id: r.user_id.clone(),
        github_login: r.github_login.clone(),
        display_name: r.display_name.clone(),
        avatar_url: clone_opt(&r.avatar_url),
        total_tokens: r.total_tokens,
        input_tokens: r.input_tokens,
        output_tokens: r.output_tokens,
        cache_read_tokens: r.cache_read_tokens,
        cache_creation_tokens: r.cache_creation_tokens,
        request_count: r.request_count,
        total_cost_usd: r.total_cost_usd.clone(),
        is_current_user: str_eq(r.user_id.as_str(), current_user_id),
    }
}

/// The leaderboard of a period and window from the stored profiles and
/// snapshots: the opted-in users' snapshots of that period and window,
/// ranked by total tokens, then requests (descending), then login
/// (ascending), the first hundred shown.
pub fn rank_snapshots(
    profiles: &Vec<ProfileRow>,
    snapshots: &Vec<SnapshotRow>,
    current_user_id: &str,
    key: &str,
    window_start: i64,
    window_end: i64,
) -> (res: LeaderboardEntriesResult)
    requires
        profiles_keyed(profiles@.map_values(|p: ProfileRow| p@)),
    ensures
        is_leaderboard_of(
            joined_rows(
                snapshots@.map_values(|s: SnapshotRow| s@),
                profiles@.map_values(|p: ProfileRow| p@),
                key@,
                window_start,
                window_end,
            ),
            current_user_id@,
            key@,
            res@,
        ),
{
    let rows = join_snapshots(profiles, snapshots, key, window_start, window_end);
    let mut sorted = sort_by_rank(&rows);
    let ghost full = sorted@.map_values(|r: RankedRow| r@);
    let n: usize = if sorted.len() < LEADERBOARD_LIMIT {
        sorted.len()
    } else {
        LEADERBOARD_LIMIT
    };
    sorted.truncate(n);
    let ghost shown = sorted@.map_values(|r: RankedRow| r@);
    assert(shown =~= full.subrange(0, n as int));
    let mut entries: Vec<LeaderboardEntry> = Vec::new();
    let mut updated_at: Option<i64> = None;
    let mut i: usize = 0;
    proof {
        assert(shown.subrange(0, 0) =~= Seq::<RankedRowView>::empty());
    }
    while i < n
        invariant
            i <= n <= 100,
            n == sorted.len(),
            shown == sorted@.map_values(|r: RankedRow| r@),
            entries.len() == i,
            forall|j: int|
                0 <= j < i ==> (#[trigger] entries@[j])@ == entry_of(shown[j], j + 1, current_user_id@),
            updated_at == latest_snapshot(shown.subrange(0, i as int)),
        decreases n - i,
    {
        let r = &sorted[i];
        assert(shown[i as int] == r@);
        let e = entry_from(r, (i + 1) as i64, current_user_id);
        entries.push(e);
        proof {
            assert(shown.subrange(0, i + 1).drop_last() =~= shown.subrange(0, i as int));
        }
        updated_at = match updated_at {
            None => Some(r.snapshot_at),
            Some(m) => Some(if m >= r.snapshot_at {
                m
            } else {
                r.snapshot_at
            }),
        };
        i = i + 1;
    }
    let res = LeaderboardEntriesResult { range: owned(key), updated_at, entries };
    proof {
        assert(shown.subrange(0, n as int) =~= shown);
        assert(shows_ordering(full, current_user_id@, key@, res@));
        assert(sorted_by_rank(full));
    }
    res
}

// ---------------------------------------------------------------------------
// The store's leaderboard
// ---------------------------------------------------------------------------

/// A leaderboard with no rows.
pub open spec fn empty_board(range: LeaderboardRange) -> EntriesView {
    EntriesView { range: range_key(range), updated_at: None, entries: Seq::empty() }
}

/// Whether the summary's token total fits in `i64` once its counts are
/// converted.
pub open spec fn summary_total_fits(summary: UsageSummary) -> bool {
    snapshot_of_summary(summary).total_fits()
}

/// Whether the summary's token total fits in `i64` once its counts are
/// converted (`summary_total_fits`), computed.
pub fn check_summary_total_fits(summary: &UsageSummary) -> (b: bool)
    ensures
        b == summary_total_fits(*summary),
{
    let s = LocalSnapshot::from_usage_summary(summary);
    let total = s.input_tokens as i128 + s.output_tokens as i128 + s.cache_read_tokens as i128
        + s.cache_creation_tokens as i128;
    i64::MIN as i128 <= total && total <= i64::MAX as i128
}

/// Whether the store shows a leaderboard: someone is signed in and has
/// opted in. Otherwise every leaderboard read gives the empty board.
pub open spec fn board_open(v: DbView) -> bool {
    current_profile(v) matches Some(p) && p.opted_in
}

impl Database {
    /// The leaderboard of a period and window from the stored snapshots,
    /// marking `current_user_id`'s row.
    pub fn query_snapshot_entries(
        &self,
        current_user_id: &str,
        range: LeaderboardRange,
        window_start: i64,
        window_end: i64,
    ) -> (r: Result<LeaderboardEntriesResult, AppError>)
        requires
            self.wf(),
        ensures
            r matches Ok(res) && is_leaderboard_of(
                joined_rows(
                    self@.snapshots,
                    self@.profiles,
                    range_key(range),
                    window_start,
                    window_end,
                ),
                current_user_id@,
                range_key(range),
                res@,
            ),
    {
        let res = rank_snapshots(
            self.profile_rows(),
            self.snapshot_rows(),
            current_user_id,
            range.as_str(),
            window_start,
            window_end,
        );
        Ok(res)
    }

    /// The leaderboard of a period for the window `[window_start,
    /// window_end]`, whose local usage is `summary`, at time `now`: empty
    /// unless the signed-in user has opted in; otherwise the user's snapshot
    /// of the window is written first, then the leaderboard is read.
    pub fn get_leaderboard_entries_at(
        &mut self,
        range: LeaderboardRange,
        window_start: i64,
        window_end: i64,
        summary: &UsageSummary,
        now: i64,
    ) -> (r: Result<LeaderboardEntriesResult, AppError>)
        requires
            old(self).wf(),
            board_open(old(self)@) ==> summary_total_fits(*summary),
        ensures
            final(self).wf(),
            match current_profile(old(self)@) {
                Some(p) if p.opted_in => final(self)@ == (DbView {
                    snapshots: upserted_snapshots(
                        old(self)@.snapshots,
                        p.user_id,
                        range_key(range),
                        window_start,
                        window_end,
                        snapshot_of_summary(*summary),
                        now,
                    ),
                    ..old(self)@
                }) && (r matches Ok(res) && is_leaderboard_of(
                    joined_rows(
                        final(self)@.snapshots,
                        final(self)@.profiles,
                        range_key(range),
                        window_start,
                        window_end,
                    ),
                    p.user_id,
                    range_key(range),
                    res@,
                )),
                _ => final(self)@ == old(self)@ && (r matches Ok(res) && res@ == empty_board(range)),
            },
    {
        let profile = match self.get_leaderboard_profile() {
            Ok(p) => p,
            Err(e) => return Err(e),
        };
        let empty = LeaderboardEntriesResult {
            range: owned(range.as_str()),
            updated_at: None,
            entries: Vec::new(),
        };
        proof {
            assert(empty@.entries =~= Seq::<EntryView>::empty());
        }
        match profile {
            None => Ok(empty),
            Some(p) => {
                if !p.opted_in {
                    return Ok(empty);
                }
                let snapshot = LocalSnapshot::from_usage_summary(summary);
                assert(snapshot == snapshot_of_summary(*summary));
                let _ = self.upsert_local_snapshot_at(
                    p.user_id.as_str(),
                    range,
                    window_start,
                    window_end,
                    &snapshot,
                    now,
                );
                self.query_snapshot_entries(p.user_id.as_str(), range, window_start, window_end)
            },
        }
    }

    /// The leaderboard of a period for the window `[window_start,
    /// window_end]`, whose local usage is `summary`; the user's snapshot is
    /// stamped with the clock's time, and when the clock cannot be read the
    /// read is refused with the store unchanged.
    pub fn get_leaderboard_entries(
        &mut self,
        range: LeaderboardRange,
        window_start: i64,
        window_end: i64,
        summary: &UsageSummary,
    ) -> (r: Result<LeaderboardEntriesResult, AppError>)
        requires
            old(self).wf(),
            board_open(old(self)@) ==> summary_total_fits(*summary),
        ensures
            final(self).wf(),
            match current_profile(old(self)@) {
                Some(p) if p.opted_in => clock_failed(r) && final(self)@ == old(self)@ || exists|
                    now: i64,
                |
                    final(self)@ == (DbView {
                        snapshots: #[trigger] upserted_snapshots(
                            old(self)@.snapshots,
                            p.user_id,
                            range_key(range),
                            window_start,
                            window_end,
                            snapshot_of_summary(*summary),
                            now,
                        ),
                        ..old(self)@
                    }) && (r matches Ok(res) && is_leaderboard_of(
                        joined_rows(
                            final(self)@.snapshots,
                            final(self)@.profiles,
                            range_key(range),
                            window_start,
                            window_end,
                        ),
                        p.user_id,
                        range_key(range),
                        res@,
                    )),
                _ => final(self)@ == old(self)@ && (r matches Ok(res) && res@ == empty_board(range)),
            },
    {
        let open = match self.get_leaderboard_profile() {
            Ok(Some(p)) => p.opted_in,
            Ok(None) => false,
            Err(e) => return Err(e),
        };
        if !open {
            let empty = LeaderboardEntriesResult {
                range: owned(range.as_str()),
                updated_at: None,
                entries: Vec::new(),
            };
            assert(empty@.entries =~= Seq::<EntryView>::empty());
            return Ok(empty);
        }
        let now = match now_unix() {
            Ok(t) => t,
            Err(e) => return Err(e),
        };
        self.get_leaderboard_entries_at(range, window_start, window_end, summary, now)
    }
}

} // verus!
