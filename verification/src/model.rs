//! The leaderboard's data types and their mathematical views.
use crate::text::{clone_opt, opt_view};
use vstd::prelude::*;

verus! {

/// Errors of the leaderboard.
#[derive(Debug)]
pub enum AppError {
    /// The request cannot be served as given.
    InvalidInput(String),
    /// A failure described by a message.
    Message(String),
    /// The store refused or lost data.
    Database(String),
    /// A remote service answered with a non-success status.
    HttpStatus { status: u16, body: String },
    /// A failure with a message key and its Chinese and English texts.
    Localized { key: String, zh: String, en: String },
}

/// The view of an error.
pub enum ErrorView {
    InvalidInput(Seq<char>),
    Message(Seq<char>),
    Database(Seq<char>),
    HttpStatus(u16, Seq<char>),
    Localized(Seq<char>, Seq<char>, Seq<char>),
}

impl View for AppError {
    type V = ErrorView;

    open spec fn view(&self) -> ErrorView {
        match self {
            AppError::InvalidInput(m) => ErrorView::InvalidInput(m@),
            AppError::Message(m) => ErrorView::Message(m@),
            AppError::Database(m) => ErrorView::Database(m@),
            AppError::HttpStatus { status, body } => ErrorView::HttpStatus(*status, body@),
            AppError::Localized { key, zh, en } => ErrorView::Localized(key@, zh@, en@),
        }
    }
}

/// The signed-in user's leaderboard profile.
#[derive(Debug)]
pub struct LeaderboardProfile {
    pub user_id: String,
    pub github_login: String,
    pub display_name: String,
    pub avatar_url: Option<String>,
    pub opted_in: bool,
    pub joined_at: i64,
    pub auth_token: Option<String>,
}

/// The view of a profile.
pub struct ProfileView {
    pub user_id: Seq<char>,
    pub github_login: Seq<char>,
    pub display_name: Seq<char>,
    pub avatar_url: Option<Seq<char>>,
    pub opted_in: bool,
    pub joined_at: i64,
    pub auth_token: Option<Seq<char>>,
}

impl View for LeaderboardProfile {
    type V = ProfileView;

    open spec fn view(&self) -> ProfileView {
        ProfileView {
            user_id: self.user_id@,
            github_login: self.github_login@,
            display_name: self.display_name@,
            avatar_url: opt_view(self.avatar_url),
            opted_in: self.opted_in,
            joined_at: self.joined_at,
            auth_token: opt_view(self.auth_token),
        }
    }
}

impl LeaderboardProfile {
    /// A field-by-field copy.
    pub fn duplicate(&self) -> (r: LeaderboardProfile)
        ensures
            r@ == self@,
    {
        LeaderboardProfile {
            user_id: self.user_id.clone(),
            github_login: self.github_login.clone(),
            display_name: self.display_name.clone(),
            avatar_url: clone_opt(&self.avatar_url),
            opted_in: self.opted_in,
            joined_at: self.joined_at,
            auth_token: clone_opt(&self.auth_token),
        }
    }
}

/// The view of an optional profile.
pub open spec fn opt_profile_view(p: Option<LeaderboardProfile>) -> Option<ProfileView> {
    match p {
        Some(v) => Some(v@),
        None => None,
    }
}

/// One ranked row of the leaderboard.
#[derive(Debug)]
pub struct LeaderboardEntry {
    pub rank: i64,
    pub user_id: String,
    pub github_login: String,
    pub display_name: String,
    pub avatar_url: Option<String>,
    pub total_tokens: i64,
    pub input_tokens: i64,
    pub output_tokens: i64,
    pub cache_read_tokens: i64,
    pub cache_creation_tokens: i64,
    pub request_count: i64,
    pub total_cost_usd: String,
    pub is_current_user: bool,
}

/// The view of a ranked row.
pub struct EntryView {
    pub rank: i64,
    pub user_id: Seq<char>,
    pub github_login: Seq<char>,
    pub display_name: Seq<char>,
    pub avatar_url: Option<Seq<char>>,
    pub total_tokens: i64,
    pub input_tokens: i64,
    pub output_tokens: i64,
    pub cache_read_tokens: i64,
    pub cache_creation_tokens: i64,
    pub request_count: i64,
    pub total_cost_usd: Seq<char>,
    pub is_current_user: bool,
}

impl View for LeaderboardEntry {
    type V = EntryView;

    open spec fn view(&self) -> EntryView {
        EntryView {
            rank: self.rank,
            user_id: self.user_id@,
            github_login: self.github_login@,
            display_name: self.display_name@,
            avatar_url: opt_view(self.avatar_url),
            total_tokens: self.total_tokens,
            input_tokens: self.input_tokens,
            output_tokens: self.output_tokens,
            cache_read_tokens: self.cache_read_tokens,
            cache_creation_tokens: self.cache_creation_tokens,
            request_count: self.request_count,
            total_cost_usd: self.total_cost_usd@,
            is_current_user: self.is_current_user,
        }
    }
}

/// A leaderboard for one range.
#[derive(Debug)]
pub struct LeaderboardEntriesResult {
    pub range: String,
    pub updated_at: Option<i64>,
    pub entries: Vec<LeaderboardEntry>,
}

/// The view of a leaderboard.
pub struct EntriesView {
    pub range: Seq<char>,
    pub updated_at: Option<i64>,
    pub entries: Seq<EntryView>,
}

impl View for LeaderboardEntriesResult {
    type V = EntriesView;

    open spec fn view(&self) -> EntriesView {
        EntriesView {
            range: self.range@,
            updated_at: self.updated_at,
            entries: self.entries@.map_values(|e: LeaderboardEntry| e@),
        }
    }
}

/// What starting a GitHub device login hands the user.
#[derive(Debug)]
pub struct GithubDeviceLoginStart {
    pub session_id: String,
    pub user_code: String,
    pub verification_uri: String,
    pub expires_at: i64,
    pub interval_seconds: u64,
}

/// The view of a device-login start.
pub struct LoginStartView {
    pub session_id: Seq<char>,
    pub user_code: Seq<char>,
    pub verification_uri: Seq<char>,
    pub expires_at: i64,
    pub interval_seconds: u64,
}

impl View for GithubDeviceLoginStart {
    type V = LoginStartView;

    open spec fn view(&self) -> LoginStartView {
        LoginStartView {
            session_id: self.session_id@,
            user_code: self.user_code@,
            verification_uri: self.verification_uri@,
            expires_at: self.expires_at,
            interval_seconds: self.interval_seconds,
        }
    }
}

/// The state of a GitHub device login after a poll.
#[derive(Debug)]
pub struct GithubDeviceLoginStatus {
    pub status: String,
    pub profile: Option<LeaderboardProfile>,
    pub retry_after_seconds: Option<u64>,
    pub message: Option<String>,
    pub auth_token: Option<String>,
}

/// The view of a login status.
pub struct LoginStatusView {
    pub status: Seq<char>,
    pub profile: Option<ProfileView>,
    pub retry_after_seconds: Option<u64>,
    pub message: Option<Seq<char>>,
    pub auth_token: Option<Seq<char>>,
}

impl View for GithubDeviceLoginStatus {
    type V = LoginStatusView;

    open spec fn view(&self) -> LoginStatusView {
        LoginStatusView {
            status: self.status@,
            profile: opt_profile_view(self.profile),
            retry_after_seconds: self.retry_after_seconds,
            message: opt_view(self.message),
            auth_token: opt_view(self.auth_token),
        }
    }
}

/// A stored GitHub login session.
#[derive(Debug)]
pub struct GithubAuthSession {
    pub id: String,
    pub device_code: String,
    pub expires_at: i64,
    pub completed_at: Option<i64>,
}

/// The view of a login session.
pub struct AuthSessionView {
    pub id: Seq<char>,
    pub device_code: Seq<char>,
    pub expires_at: i64,
    pub completed_at: Option<i64>,
}

impl View for GithubAuthSession {
    type V = AuthSessionView;

    open spec fn view(&self) -> AuthSessionView {
        AuthSessionView {
            id: self.id@,
            device_code: self.device_code@,
            expires_at: self.expires_at,
            completed_at: self.completed_at,
        }
    }
}

/// Token usage totals of a time window, as the usage statistics report
/// them.
#[derive(Debug)]
pub struct UsageSummary {
    pub total_input_tokens: u64,
    pub total_output_tokens: u64,
    pub total_cache_read_tokens: u64,
    pub total_cache_creation_tokens: u64,
    pub total_requests: u64,
    pub total_cost: String,
}

/// The local user's usage in one leaderboard window.
#[derive(Debug)]
pub struct LocalSnapshot {
    pub input_tokens: i64,
    pub output_tokens: i64,
    pub cache_read_tokens: i64,
    pub cache_creation_tokens: i64,
    pub request_count: i64,
    pub total_cost_usd: String,
}

/// The conversion `x as i64` of a count (two's complement wrap-around).
pub open spec fn count_as_i64(x: u64) -> i64 {
    x as i64
}

/// The sum of the four token kinds.
pub open spec fn snapshot_total(input: i64, output: i64, cache_read: i64, cache_creation: i64) -> int {
    input + output + cache_read + cache_creation
}

/// The snapshot of a usage summary (see `LocalSnapshot::from_usage_summary`).
pub open spec fn snapshot_of_summary(summary: UsageSummary) -> LocalSnapshot {
    LocalSnapshot {
        input_tokens: count_as_i64(summary.total_input_tokens),
        output_tokens: count_as_i64(summary.total_output_tokens),
        cache_read_tokens: count_as_i64(summary.total_cache_read_tokens),
        cache_creation_tokens: count_as_i64(summary.total_cache_creation_tokens),
        request_count: count_as_i64(summary.total_requests),
        total_cost_usd: summary.total_cost,
    }
}

impl LocalSnapshot {
    /// The snapshot of a usage summary: every count converted with `as i64`.
    pub fn from_usage_summary(summary: &UsageSummary) -> (s: LocalSnapshot)
        ensures
            s.input_tokens == count_as_i64(summary.total_input_tokens),
            s.output_tokens == count_as_i64(summary.total_output_tokens),
            s.cache_read_tokens == count_as_i64(summary.total_cache_read_tokens),
            s.cache_creation_tokens == count_as_i64(summary.total_cache_creation_tokens),
            s.request_count == count_as_i64(summary.total_requests),
            s.total_cost_usd == summary.total_cost,
    {
        LocalSnapshot {
            input_tokens: summary.total_input_tokens as i64,
            output_tokens: summary.total_output_tokens as i64,
            cache_read_tokens: summary.total_cache_read_tokens as i64,
            cache_creation_tokens: summary.total_cache_creation_tokens as i64,
            request_count: summary.total_requests as i64,
            total_cost_usd: summary.total_cost.clone(),
        }
    }

    /// Whether the total of the four token kinds fits in `i64`.
    pub open spec fn total_fits(&self) -> bool {
        i64::MIN <= snapshot_total(
            self.input_tokens,
            self.output_tokens,
            self.cache_read_tokens,
            self.cache_creation_tokens,
        ) <= i64::MAX
    }

    /// Input + output + cache-read + cache-creation tokens.
    pub fn total_tokens(&self) -> (t: i64)
        requires
            self.total_fits(),
        ensures
            t == snapshot_total(
                self.input_tokens,
                self.output_tokens,
                self.cache_read_tokens,
                self.cache_creation_tokens,
            ),
    {
        let a = self.input_tokens as i128 + self.output_tokens as i128;
        let b = a + self.cache_read_tokens as i128;
        let c = b + self.cache_creation_tokens as i128;
        c as i64
    }
}

} // verus!
