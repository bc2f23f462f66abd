//! The remote leaderboard flows as decisions between remote calls: the GitHub
//! device login (through the Token Use backend or GitHub directly), opting
//! in remotely, and preparing the snapshot upload.
//!
//! Each function takes what the previous remote call returned and says what
//! to ask next, or what the flow ends with.
use crate::clock::{
    clock_failed, clock_unavailable_message, now_unix, random_unavailable_message,
};
use crate::model::{
    snapshot_of_summary, snapshot_total, AppError, ErrorView, GithubDeviceLoginStart,
    GithubDeviceLoginStatus, LeaderboardEntriesResult, LeaderboardProfile, LoginStatusView,
    ProfileView, UsageSummary,
};
use crate::range::{range_key, LeaderboardRange};
use crate::ranking::{empty_board, summary_total_fits};
use crate::store::{
    completed_sessions, created_sessions, current_profile, duplicate_session_message,
    failed_sessions, has_session, has_user, opt_str_view, session_index, sign_in_first_message,
    unknown_session_message, upserted_profiles, user_index, Database, DbView,
};
use crate::text::{
    clone_opt, concat2, dec_nat, has_prefix, is_blank, is_blank_seq, opt_view, owned, str_eq,
    strip_prefix, u64_to_decimal,
};
use vstd::prelude::*;

verus! {

// ---------------------------------------------------------------------------
// Messages and statuses
// ---------------------------------------------------------------------------

/// The message when a device code has expired.
pub open spec fn expired_message() -> Seq<char> {
    "GitHub 验证码已过期，请重新登录。"@
}

/// The message when the user declined the authorization.
pub open spec fn denied_message() -> Seq<char> {
    "GitHub 授权已取消。"@
}

/// The message when the backend authorized a login without a profile.
pub open spec fn missing_profile_message() -> Seq<char> {
    "Token Use 后端登录成功但缺少用户资料"@
}

/// The message when GitHub's answer has neither an error nor a token.
pub open spec fn missing_token_message() -> Seq<char> {
    "GitHub 响应缺少 access_token"@
}

/// The prefix of the message of an unexpected GitHub error.
pub open spec fn github_failure_prefix() -> Seq<char> {
    "GitHub 授权失败: "@
}

/// The message when the stored backend token is missing or blank.
pub open spec fn stale_login_message() -> Seq<char> {
    "排行登录已失效，请重新使用 GitHub 登录。"@
}

/// The device-code prefix of sessions that the backend drives.
pub open spec fn backend_prefix() -> Seq<char> {
    "backend:"@
}

/// A login status.
pub open spec fn status_view(
    status: Seq<char>,
    profile: Option<ProfileView>,
    retry_after_seconds: Option<u64>,
    message: Option<Seq<char>>,
) -> LoginStatusView {
    LoginStatusView { status, profile, retry_after_seconds, message, auth_token: None }
}

fn make_status(
    status: &str,
    profile: Option<LeaderboardProfile>,
    retry_after_seconds: Option<u64>,
    message: Option<String>,
) -> (s: GithubDeviceLoginStatus)
    ensures
        s@ == status_view(
            status@,
            crate::model::opt_profile_view(profile),
            retry_after_seconds,
            opt_view(message),
        ),
{
    GithubDeviceLoginStatus {
        status: owned(status),
        profile,
        retry_after_seconds,
        message,
        auth_token: None,
    }
}

// ---------------------------------------------------------------------------
// The backend token
// ---------------------------------------------------------------------------

/// The backend token of a profile: its stored token unless missing or made
/// of white space only.
pub open spec fn auth_token_of(p: ProfileView) -> Option<Seq<char>> {
    match p.auth_token {
        Some(t) => if is_blank_seq(t) {
            None
        } else {
            Some(t)
        },
        None => None,
    }
}

/// The profile's backend token; refused when it is missing or blank.
pub fn backend_auth_token(profile: &LeaderboardProfile) -> (r: Result<String, AppError>)
    ensures
        match auth_token_of(profile@) {
            Some(t) => r matches Ok(s) && s@ == t,
            None => r matches Err(e) && e@ == ErrorView::InvalidInput(stale_login_message()),
        },
{
    match &profile.auth_token {
        Some(t) => {
            if !is_blank(t.as_str()) {
                return Ok(t.clone());
            }
        },
        None => {},
    }
    proof {
        reveal_strlit("排行登录已失效，请重新使用 GitHub 登录。");
    }
    Err(AppError::InvalidInput(owned("排行登录已失效，请重新使用 GitHub 登录。")))
}

// ---------------------------------------------------------------------------
// Starting a login
// ---------------------------------------------------------------------------

/// Records the backend's new login session locally (its device code being
/// "backend:" and the backend's session id) and hands the login to the user
/// under the local session id; refused, with the store unchanged, only when
/// the clock cannot be read, when the random source fails, or when the drawn
/// local id already names a session (so never for that reason on a store
/// without sessions).
pub fn start_github_device_login(db: &mut Database, remote_login: GithubDeviceLoginStart) -> (r:
    Result<GithubDeviceLoginStart, AppError>)
    requires
        old(db).wf(),
    ensures
        final(db).wf(),
        match r {
            Ok(s) => s.user_code@ == remote_login.user_code@ && s.verification_uri@
                == remote_login.verification_uri@ && s.expires_at == remote_login.expires_at
                && s.interval_seconds == remote_login.interval_seconds
                && crate::clock::is_uuid_v4_text(s.session_id@) && exists|now: i64|
                !has_session(old(db)@.sessions, s.session_id@) && final(db)@ == (DbView {
                    sessions: #[trigger] created_sessions(
                        old(db)@.sessions,
                        s.session_id@,
                        backend_prefix() + remote_login.session_id@,
                        remote_login.expires_at,
                        now,
                    ),
                    ..old(db)@
                }),
            Err(e) => final(db)@ == old(db)@ && (e@ == ErrorView::Message(
                clock_unavailable_message(),
            ) || e@ == ErrorView::Message(random_unavailable_message()) || (e@ == ErrorView::Database(
                duplicate_session_message(),
            ) && exists|id: Seq<char>|
                crate::clock::is_uuid_v4_text(id) && #[trigger] has_session(
                    old(db)@.sessions,
                    id,
                ))),
        },
{
    proof {
        reveal_strlit("backend:");
    }
    let device_code = concat2("backend:", remote_login.session_id.as_str());
    let ghost old_db = db@;
    let local_session_id = match db.create_github_auth_session(
        device_code.as_str(),
        remote_login.expires_at,
    ) {
        Ok(id) => id,
        Err(e) => return Err(e),
    };
    let ghost now = choose|now: i64|
        !has_session(old_db.sessions, local_session_id@) && db@ == (DbView {
            sessions: #[trigger] created_sessions(
                old_db.sessions,
                local_session_id@,
                device_code@,
                remote_login.expires_at,
                now,
            ),
            ..old_db
        });
    let start = GithubDeviceLoginStart {
        session_id: local_session_id,
        user_code: remote_login.user_code,
        verification_uri: remote_login.verification_uri,
        expires_at: remote_login.expires_at,
        interval_seconds: remote_login.interval_seconds,
    };
    proof {
        assert(device_code@ == backend_prefix() + remote_login.session_id@);
        assert(!has_session(old_db.sessions, start.session_id@));
        assert(db@ == (DbView {
            sessions: created_sessions(
                old_db.sessions,
                start.session_id@,
                backend_prefix() + remote_login.session_id@,
                remote_login.expires_at,
                now,
            ),
            ..old_db
        }));
    }
    Ok(start)
}

// ---------------------------------------------------------------------------
// Polling a login
// ---------------------------------------------------------------------------

/// What a poll of a login session leads to.
#[derive(Debug)]
pub enum LoginPoll {
    /// The poll is answered without a remote call.
    Finished(GithubDeviceLoginStatus),
    /// Ask the backend about its session `remote_session_id`.
    AskBackend { session_id: String, remote_session_id: String },
    /// Ask GitHub for a token for the device code.
    AskGithub { session_id: String, device_code: String },
}

/// The view of a poll's outcome.
pub enum LoginPollView {
    Finished(LoginStatusView),
    AskBackend(Seq<char>, Seq<char>),
    AskGithub(Seq<char>, Seq<char>),
}

impl View for LoginPoll {
    type V = LoginPollView;

    open spec fn view(&self) -> LoginPollView {
        match self {
            LoginPoll::Finished(s) => LoginPollView::Finished(s@),
            LoginPoll::AskBackend { session_id, remote_session_id } => LoginPollView::AskBackend(
                session_id@,
                remote_session_id@,
            ),
            LoginPoll::AskGithub { session_id, device_code } => LoginPollView::AskGithub(
                session_id@,
                device_code@,
            ),
        }
    }
}

/// The store after a poll at time `now`, and what the poll leads to, for a
/// known session: a completed session reports "completed" with the current
/// profile; an expired one is marked "expired"; a backend session asks the
/// backend; any other asks GitHub.
pub open spec fn poll_outcome(v: DbView, session_id: Seq<char>, now: i64) -> (DbView, LoginPollView) {
    let s = v.sessions[session_index(v.sessions, session_id)];
    if s.completed_at is Some {
        (v, LoginPollView::Finished(status_view("completed"@, current_profile(v), None, None)))
    } else if s.expires_at <= now {
        (
            DbView { sessions: failed_sessions(v.sessions, s.id, "expired"@), ..v },
            LoginPollView::Finished(status_view("expired"@, None, None, Some(expired_message()))),
        )
    } else if has_prefix(s.state, backend_prefix()) {
        (
            v,
            LoginPollView::AskBackend(
                s.id,
                s.state.subrange(backend_prefix().len() as int, s.state.len() as int),
            ),
        )
    } else {
        (v, LoginPollView::AskGithub(s.id, s.state))
    }
}

/// Polls a login session at time `now` (see `poll_outcome`); refused when
/// the session is unknown.
pub fn poll_github_device_login_at(db: &mut Database, session_id: &str, now: i64) -> (r: Result<
    LoginPoll,
    AppError,
>)
    requires
        old(db).wf(),
    ensures
        final(db).wf(),
        !has_session(old(db)@.sessions, session_id@) ==> final(db)@ == old(db)@ && (r matches Err(
            e) && e@ == ErrorView::InvalidInput(unknown_session_message())),
        has_session(old(db)@.sessions, session_id@) ==> (r matches Ok(p) && (final(db)@, p@)
            == poll_outcome(old(db)@, session_id@, now)),
{
    let session = match db.get_github_auth_session(session_id) {
        Ok(s) => s,
        Err(e) => return Err(e),
    };
    if session.completed_at.is_some() {
        let profile = match db.get_leaderboard_profile() {
            Ok(p) => p,
            Err(e) => return Err(e),
        };
        return Ok(LoginPoll::Finished(make_status("completed", profile, None, None)));
    }
    if session.expires_at <= now {
        let _ = db.fail_github_auth_session(session.id.as_str(), "expired");
        proof {
            reveal_strlit("GitHub 验证码已过期，请重新登录。");
        }
        return Ok(
            LoginPoll::Finished(
                make_status("expired", None, None, Some(owned("GitHub 验证码已过期，请重新登录。"))),
            ),
        );
    }
    proof {
        reveal_strlit("backend:");
    }
    match strip_prefix(session.device_code.as_str(), "backend:") {
        Some(remote_session_id) => Ok(
            LoginPoll::AskBackend { session_id: session.id, remote_session_id },
        ),
        None => Ok(LoginPoll::AskGithub { session_id: session.id, device_code: session.device_code }),
    }
}

/// Polls a login session at the clock's time (see `poll_outcome`); refused
/// when the session is unknown, and (the store unchanged) when the session
/// is open and the clock cannot be read.
pub fn poll_github_device_login(db: &mut Database, session_id: &str) -> (r: Result<
    LoginPoll,
    AppError,
>)
    requires
        old(db).wf(),
    ensures
        final(db).wf(),
        !has_session(old(db)@.sessions, session_id@) ==> final(db)@ == old(db)@ && (r matches Err(
            e) && e@ == ErrorView::InvalidInput(unknown_session_message())),
        has_session(old(db)@.sessions, session_id@) ==> clock_failed(r) && final(db)@ == old(db)@
            && old(db)@.sessions[session_index(old(db)@.sessions, session_id@)].completed_at is None
            || (r matches Ok(p) && exists|now: i64|
            (final(db)@, p@) == #[trigger] poll_outcome(old(db)@, session_id@, now)),
{
    let session = match db.get_github_auth_session(session_id) {
        Ok(s) => s,
        Err(e) => return Err(e),
    };
    // A completed session's outcome does not depend on the time, so the clock
    // is read only for an open one.
    let now = if session.completed_at.is_some() {
        0
    } else {
        match now_unix() {
            Ok(t) => t,
            Err(e) => return Err(e),
        }
    };
    poll_github_device_login_at(db, session_id, now)
}

// ---------------------------------------------------------------------------
// The backend's answer
// ---------------------------------------------------------------------------

/// What the backend answered to a login poll.
#[derive(Debug)]
pub struct BackendLoginStatus {
    pub status: String,
    pub profile: Option<LeaderboardProfile>,
    pub auth_token: Option<String>,
    pub retry_after_seconds: Option<u64>,
    pub message: Option<String>,
}

/// Whether the backend reports the login authorized.
pub open spec fn is_authorized_status(s: Seq<char>) -> bool {
    s == "authorized"@ || s == "completed"@
}

/// Whether the backend reports the login over without success.
pub open spec fn is_closed_status(s: Seq<char>) -> bool {
    s == "expired"@ || s == "denied"@
}

/// Applies the backend's answer to the login session `session_id`:
/// - authorized ("authorized" or "completed") with a profile: the profile is
///   stored as current with the backend's token, the session completed, and
///   the status reported with the stored profile; without a profile the
///   answer is refused;
/// - "expired" or "denied": the session records the status as its error;
/// - in every case but the refusal the backend's status, retry delay and
///   message are reported.
pub fn apply_backend_login_status(
    db: &mut Database,
    session_id: &str,
    reply: BackendLoginStatus,
) -> (r: Result<GithubDeviceLoginStatus, AppError>)
    requires
        old(db).wf(),
    ensures
        final(db).wf(),
        is_authorized_status(reply.status@) && reply.profile is None ==> final(db)@ == old(db)@ && (
        r matches Err(e) && e@ == ErrorView::Message(missing_profile_message())),
        is_authorized_status(reply.status@) && reply.profile is Some ==> {
            let rp = reply.profile->0@;
            clock_failed(r) && final(db)@ == old(db)@ || exists|t1: i64, t2: i64|
                #![trigger upserted_profiles(
                    old(db)@.profiles,
                    rp.user_id,
                    rp.github_login,
                    rp.display_name,
                    rp.avatar_url,
                    rp.opted_in,
                    opt_view(reply.auth_token),
                    t1,
                ), completed_sessions(old(db)@.sessions, session_id@, t2)]
                final(db)@ == (DbView {
                    profiles: upserted_profiles(
                        old(db)@.profiles,
                        rp.user_id,
                        rp.github_login,
                        rp.display_name,
                        rp.avatar_url,
                        rp.opted_in,
                        opt_view(reply.auth_token),
                        t1,
                    ),
                    sessions: completed_sessions(old(db)@.sessions, session_id@, t2),
                    ..old(db)@
                }) && (r matches Ok(s) && s@ == status_view(
                    reply.status@,
                    current_profile(final(db)@),
                    reply.retry_after_seconds,
                    opt_view(reply.message),
                ) && current_profile(final(db)@) is Some)
        },
        !is_authorized_status(reply.status@) ==> final(db)@ == (if is_closed_status(
            reply.status@,
        ) {
            DbView { sessions: failed_sessions(old(db)@.sessions, session_id@, reply.status@), ..old(db)@ }
        } else {
            old(db)@
        }) && (r matches Ok(s) && s@ == status_view(
            reply.status@,
            None,
            reply.retry_after_seconds,
            opt_view(reply.message),
        )),
{
    if str_eq(reply.status.as_str(), "authorized") || str_eq(reply.status.as_str(), "completed") {
        match reply.profile {
            None => {
                proof {
                    reveal_strlit("Token Use 后端登录成功但缺少用户资料");
                }
                return Err(AppError::Message(owned("Token Use 后端登录成功但缺少用户资料")));
            },
            Some(rp) => {
                let ghost old_db = db@;
                let token: Option<&str> = match &reply.auth_token {
                    Some(t) => Some(t.as_str()),
                    None => None,
                };
                let avatar: Option<&str> = match &rp.avatar_url {
                    Some(a) => Some(a.as_str()),
                    None => None,
                };
                let t1 = match now_unix() {
                    Ok(t) => t,
                    Err(e) => return Err(e),
                };
                let t2 = match now_unix() {
                    Ok(t) => t,
                    Err(e) => return Err(e),
                };
                let profile = match db.upsert_leaderboard_profile_at(
                    rp.user_id.as_str(),
                    rp.github_login.as_str(),
                    rp.display_name.as_str(),
                    avatar,
                    rp.opted_in,
                    token,
                    t1,
                ) {
                    Ok(p) => p,
                    Err(e) => return Err(e),
                };
                let ghost mid = db@;
                let _ = db.complete_github_auth_session_at(session_id, t2);
                assert(current_profile(db@) == current_profile(mid));
                proof {
                    let rpv = rp@;
                    assert(opt_str_view(token) == opt_view(reply.auth_token));
                    assert(opt_str_view(avatar) == rpv.avatar_url);
                    assert(db@ == (DbView {
                        profiles: upserted_profiles(
                            old_db.profiles,
                            rpv.user_id,
                            rpv.github_login,
                            rpv.display_name,
                            rpv.avatar_url,
                            rpv.opted_in,
                            opt_view(reply.auth_token),
                            t1,
                        ),
                        sessions: completed_sessions(old_db.sessions, session_id@, t2),
                        ..old_db
                    }));
                }
                return Ok(
                    GithubDeviceLoginStatus {
                        status: reply.status,
                        profile: Some(profile),
                        retry_after_seconds: reply.retry_after_seconds,
                        message: reply.message,
                        auth_token: None,
                    },
                );
            },
        }
    }
    if str_eq(reply.status.as_str(), "expired") || str_eq(reply.status.as_str(), "denied") {
        let _ = db.fail_github_auth_session(session_id, reply.status.as_str());
    }
    Ok(
        GithubDeviceLoginStatus {
            status: reply.status,
            profile: None,
            retry_after_seconds: reply.retry_after_seconds,
            message: reply.message,
            auth_token: None,
        },
    )
}

// ---------------------------------------------------------------------------
// GitHub's token answer
// ---------------------------------------------------------------------------

/// What GitHub answered to a device-token request.
#[derive(Debug)]
pub struct GithubTokenResponse {
    pub access_token: Option<String>,
    pub error: Option<String>,
    pub error_description: Option<String>,
    pub interval: Option<u64>,
}

/// What GitHub's token answer leads to.
#[derive(Debug)]
pub enum TokenPoll {
    /// The poll ends with this status.
    Finished(GithubDeviceLoginStatus),
    /// Read the GitHub user with this token.
    FetchUser { access_token: String },
}

/// The view of a token answer's outcome.
pub enum TokenPollView {
    Finished(LoginStatusView),
    FetchUser(Seq<char>),
}

impl View for TokenPoll {
    type V = TokenPollView;

    open spec fn view(&self) -> TokenPollView {
        match self {
            TokenPoll::Finished(s) => TokenPollView::Finished(s@),
            TokenPoll::FetchUser { access_token } => TokenPollView::FetchUser(access_token@),
        }
    }
}

/// A retry delay, or a default.
pub open spec fn or_default(x: Option<u64>, d: u64) -> Option<u64> {
    match x {
        Some(v) => Some(v),
        None => Some(d),
    }
}

/// Whether GitHub's error code means the device code expired.
pub open spec fn is_expired_code(e: Seq<char>) -> bool {
    e == "expired_token"@ || e == "token_expired"@
}

/// The outcome of GitHub's token answer for an error code `e`, when the
/// answer is not refused: pending (retry after GitHub's interval, 5 s by
/// default, or 10 s when asked to slow down), expired, or denied.
pub open spec fn token_error_status(e: Seq<char>, reply_interval: Option<u64>, description: Option<
    Seq<char>,
>) -> LoginStatusView {
    if e == "authorization_pending"@ {
        status_view("pending"@, None, or_default(reply_interval, 5), None)
    } else if e == "slow_down"@ {
        status_view("pending"@, None, or_default(reply_interval, 10), description)
    } else if is_expired_code(e) {
        status_view("expired"@, None, None, Some(expired_message()))
    } else {
        status_view("denied"@, None, None, Some(denied_message()))
    }
}

/// Whether GitHub's error code is one of those the login knows.
pub open spec fn is_known_code(e: Seq<char>) -> bool {
    e == "authorization_pending"@ || e == "slow_down"@ || is_expired_code(e) || e
        == "access_denied"@
}

/// Whether a known error code ends the session (it is then recorded).
pub open spec fn ends_session(e: Seq<char>) -> bool {
    is_expired_code(e) || e == "access_denied"@
}

/// Applies GitHub's token answer to the login session `session_id`:
/// - an error code: "authorization_pending" and "slow_down" keep the login
///   pending; "expired_token"/"token_expired" and "access_denied" record the
///   code on the session and end it as expired or denied; any other code is
///   recorded and refused with GitHub's description (or the code);
/// - no error: without a token the answer is refused; with one, the GitHub
///   user is to be read next.
pub fn apply_github_token_response(
    db: &mut Database,
    session_id: &str,
    token: GithubTokenResponse,
) -> (r: Result<TokenPoll, AppError>)
    requires
        old(db).wf(),
    ensures
        final(db).wf(),
        match opt_view(token.error) {
            Some(e) => {
                &&& final(db)@ == (if is_known_code(e) && !ends_session(e) {
                    old(db)@
                } else {
                    DbView { sessions: failed_sessions(old(db)@.sessions, session_id@, e), ..old(db)@ }
                })
                &&& is_known_code(e) ==> (r matches Ok(p) && p@ == TokenPollView::Finished(
                    token_error_status(e, token.interval, opt_view(token.error_description)),
                ))
                &&& !is_known_code(e) ==> (r matches Err(x) && x@ == ErrorView::Message(
                    github_failure_prefix() + match opt_view(token.error_description) {
                        Some(d) => d,
                        None => e,
                    },
                ))
            },
            None => final(db)@ == old(db)@ && match opt_view(token.access_token) {
                Some(t) => r matches Ok(p) && p@ == TokenPollView::FetchUser(t),
                None => r matches Err(x) && x@ == ErrorView::Message(missing_token_message()),
            },
        },
{
    match token.error {
        Some(error) => {
            let e = error.as_str();
            proof {
                reveal_strlit("GitHub 验证码已过期，请重新登录。");
                reveal_strlit("GitHub 授权已取消。");
                reveal_strlit("GitHub 授权失败: ");
                reveal_strlit("authorization_pending");
                reveal_strlit("slow_down");
                reveal_strlit("expired_token");
                reveal_strlit("token_expired");
                reveal_strlit("access_denied");
                assert("authorization_pending"@.len() != "expired_token"@.len());
                assert("slow_down"@.len() != "expired_token"@.len());
                assert("authorization_pending"@.len() != "access_denied"@.len());
                assert("slow_down"@.len() != "access_denied"@.len());
                assert("token_expired"@.len() == "expired_token"@.len());
            }
            if str_eq(e, "authorization_pending") {
                let retry = match token.interval {
                    Some(v) => Some(v),
                    None => Some(5u64),
                };
                Ok(TokenPoll::Finished(make_status("pending", None, retry, None)))
            } else if str_eq(e, "slow_down") {
                let retry = match token.interval {
                    Some(v) => Some(v),
                    None => Some(10u64),
                };
                Ok(TokenPoll::Finished(make_status("pending", None, retry, token.error_description)))
            } else if str_eq(e, "expired_token") || str_eq(e, "token_expired") {
                let _ = db.fail_github_auth_session(session_id, e);
                Ok(
                    TokenPoll::Finished(
                        make_status(
                            "expired",
                            None,
                            None,
                            Some(owned("GitHub 验证码已过期，请重新登录。")),
                        ),
                    ),
                )
            } else if str_eq(e, "access_denied") {
                let _ = db.fail_github_auth_session(session_id, e);
                Ok(
                    TokenPoll::Finished(
                        make_status("denied", None, None, Some(owned("GitHub 授权已取消。"))),
                    ),
                )
            } else {
                let _ = db.fail_github_auth_session(session_id, e);
                let detail = match token.error_description {
                    Some(d) => d,
                    None => owned(e),
                };
                Err(AppError::Message(concat2("GitHub 授权失败: ", detail.as_str())))
            }
        },
        None => match token.access_token {
            Some(t) => Ok(TokenPoll::FetchUser { access_token: t }),
            None => {
                proof {
                    reveal_strlit("GitHub 响应缺少 access_token");
                }
                Err(AppError::Message(owned("GitHub 响应缺少 access_token")))
            },
        },
    }
}

// ---------------------------------------------------------------------------
// The GitHub user
// ---------------------------------------------------------------------------

/// The GitHub user read with the access token.
#[derive(Debug)]
pub struct GithubUserResponse {
    pub id: u64,
    pub login: String,
    pub name: Option<String>,
    pub avatar_url: Option<String>,
}

/// The leaderboard user id of a GitHub account: "github:" and its number.
pub open spec fn github_user_id(id: u64) -> Seq<char> {
    "github:"@ + dec_nat(id as nat)
}

/// The display name of a GitHub user: their name, or their login without
/// one.
pub open spec fn display_name_of(name: Option<Seq<char>>, login: Seq<char>) -> Seq<char> {
    match name {
        Some(n) => n,
        None => login,
    }
}

/// The opt-in a GitHub login keeps: that of the current profile when it is
/// the same user, false otherwise.
pub open spec fn kept_opt_in(v: DbView, user_id: Seq<char>) -> bool {
    match current_profile(v) {
        Some(p) => p.user_id == user_id && p.opted_in,
        None => false,
    }
}

/// Stores the GitHub user as the current profile (named by their name, or
/// login without one; the opt-in kept when the same user was signed in; no
/// backend token), completes the session and reports "authorized" with the
/// stored profile; refused, with the store unchanged, when the clock cannot
/// be read.
pub fn apply_github_user(db: &mut Database, session_id: &str, user: GithubUserResponse) -> (r:
    Result<GithubDeviceLoginStatus, AppError>)
    requires
        old(db).wf(),
    ensures
        final(db).wf(),
        clock_failed(r) && final(db)@ == old(db)@ || (exists|t1: i64, t2: i64|
            #![trigger upserted_profiles(
                old(db)@.profiles,
                github_user_id(user.id),
                user.login@,
                display_name_of(opt_view(user.name), user.login@),
                opt_view(user.avatar_url),
                kept_opt_in(old(db)@, github_user_id(user.id)),
                None,
                t1,
            ), completed_sessions(old(db)@.sessions, session_id@, t2)]
            final(db)@ == (DbView {
                profiles: upserted_profiles(
                    old(db)@.profiles,
                    github_user_id(user.id),
                    user.login@,
                    display_name_of(opt_view(user.name), user.login@),
                    opt_view(user.avatar_url),
                    kept_opt_in(old(db)@, github_user_id(user.id)),
                    None,
                    t1,
                ),
                sessions: completed_sessions(old(db)@.sessions, session_id@, t2),
                ..old(db)@
            }) && (r matches Ok(s) && s@ == status_view(
                "authorized"@,
                current_profile(final(db)@),
                None,
                None,
            ) && current_profile(final(db)@) is Some)),
{
    proof {
        reveal_strlit("github:");
    }
    let digits = u64_to_decimal(user.id);
    let user_id = concat2("github:", digits.as_str());
    let display_name = match user.name {
        Some(n) => n,
        None => user.login.clone(),
    };
    let previous = match db.get_leaderboard_profile() {
        Ok(p) => p,
        Err(e) => return Err(e),
    };
    let previous_opt_in = match &previous {
        Some(p) => str_eq(p.user_id.as_str(), user_id.as_str()) && p.opted_in,
        None => false,
    };
    let avatar: Option<&str> = match &user.avatar_url {
        Some(a) => Some(a.as_str()),
        None => None,
    };
    let t1 = match now_unix() {
        Ok(t) => t,
        Err(e) => return Err(e),
    };
    let t2 = match now_unix() {
        Ok(t) => t,
        Err(e) => return Err(e),
    };
    let profile = match db.upsert_leaderboard_profile_at(
        user_id.as_str(),
        user.login.as_str(),
        display_name.as_str(),
        avatar,
        previous_opt_in,
        None,
        t1,
    ) {
        Ok(p) => p,
        Err(e) => return Err(e),
    };
    let ghost mid = db@;
    let _ = db.complete_github_auth_session_at(session_id, t2);
    assert(current_profile(db@) == current_profile(mid));
    proof {
        assert(opt_str_view(avatar) == opt_view(user.avatar_url));
        assert(display_name@ == display_name_of(opt_view(user.name), user.login@));
        assert(previous_opt_in == kept_opt_in(old(db)@, github_user_id(user.id)));
        assert(db@ == (DbView {
            profiles: upserted_profiles(
                old(db)@.profiles,
                github_user_id(user.id),
                user.login@,
                display_name_of(opt_view(user.name), user.login@),
                opt_view(user.avatar_url),
                kept_opt_in(old(db)@, github_user_id(user.id)),
                None,
                t1,
            ),
            sessions: completed_sessions(old(db)@.sessions, session_id@, t2),
            ..old(db)@
        }));
    }
    Ok(make_status("authorized", Some(profile), None, None))
}

// ---------------------------------------------------------------------------
// Remote opt-in
// ---------------------------------------------------------------------------

/// The backend token to change the opt-in with: refused when no one is
/// signed in, or when the stored token is missing or blank.
pub fn remote_opt_in_token(db: &Database) -> (r: Result<String, AppError>)
    requires
        db.wf(),
    ensures
        match current_profile(db@) {
            None => r matches Err(e) && e@ == ErrorView::InvalidInput(sign_in_first_message()),
            Some(p) => match auth_token_of(p) {
                Some(t) => r matches Ok(s) && s@ == t,
                None => r matches Err(e) && e@ == ErrorView::InvalidInput(stale_login_message()),
            },
        },
{
    let current = match db.get_leaderboard_profile() {
        Ok(p) => p,
        Err(e) => return Err(e),
    };
    match current {
        None => {
            proof {
                reveal_strlit("请先使用 GitHub 登录");
            }
            Err(AppError::InvalidInput(owned("请先使用 GitHub 登录")))
        },
        Some(p) => backend_auth_token(&p),
    }
}

/// Stores the profile the backend returned after an opt-in change, with the
/// backend token used for the change; refused, with the store unchanged,
/// when the clock cannot be read.
pub fn set_remote_leaderboard_opt_in(
    db: &mut Database,
    auth_token: &str,
    remote: &LeaderboardProfile,
) -> (r: Result<LeaderboardProfile, AppError>)
    requires
        old(db).wf(),
    ensures
        final(db).wf(),
        clock_failed(r) && final(db)@ == old(db)@ || (exists|now: i64|
            final(db)@ == (DbView {
                profiles: #[trigger] upserted_profiles(
                    old(db)@.profiles,
                    remote.user_id@,
                    remote.github_login@,
                    remote.display_name@,
                    opt_view(remote.avatar_url),
                    remote.opted_in,
                    Some(auth_token@),
                    now,
                ),
                ..old(db)@
            })) && (r matches Ok(p) && current_profile(final(db)@) == Some(p@)),
{
    let avatar: Option<&str> = match &remote.avatar_url {
        Some(a) => Some(a.as_str()),
        None => None,
    };
    db.upsert_leaderboard_profile(
        remote.user_id.as_str(),
        remote.github_login.as_str(),
        remote.display_name.as_str(),
        avatar,
        remote.opted_in,
        Some(auth_token),
    )
}

// ---------------------------------------------------------------------------
// Remote leaderboard
// ---------------------------------------------------------------------------

/// What reading the remote leaderboard needs.
#[derive(Debug)]
pub enum RemoteEntriesPlan {
    /// Nothing to upload: the leaderboard is this.
    Finished(LeaderboardEntriesResult),
    /// Upload the local snapshot and read the leaderboard with this token.
    Upload { auth_token: String },
}

/// Decides how the remote leaderboard of a period is read: empty unless the
/// signed-in user has opted in; otherwise with the user's backend token
/// (refused when missing or blank).
pub fn get_remote_leaderboard_entries(db: &Database, range: LeaderboardRange) -> (r: Result<
    RemoteEntriesPlan,
    AppError,
>)
    requires
        db.wf(),
    ensures
        match current_profile(db@) {
            Some(p) if p.opted_in => match auth_token_of(p) {
                Some(t) => r matches Ok(RemoteEntriesPlan::Upload { auth_token }) && auth_token@
                    == t,
                None => r matches Err(e) && e@ == ErrorView::InvalidInput(stale_login_message()),
            },
            _ => r matches Ok(RemoteEntriesPlan::Finished(res)) && res@ == empty_board(range),
        },
{
    let profile = match db.get_leaderboard_profile() {
        Ok(p) => p,
        Err(e) => return Err(e),
    };
    let empty = LeaderboardEntriesResult {
        range: owned(range.as_str()),
        updated_at: None,
        entries: Vec::new(),
    };
    proof {
        assert(empty@.entries =~= Seq::<crate::model::EntryView>::empty());
    }
    match profile {
        None => Ok(RemoteEntriesPlan::Finished(empty)),
        Some(p) => {
            if !p.opted_in {
                return Ok(RemoteEntriesPlan::Finished(empty));
            }
            match backend_auth_token(&p) {
                Ok(t) => Ok(RemoteEntriesPlan::Upload { auth_token: t }),
                Err(e) => Err(e),
            }
        },
    }
}

/// The snapshot uploaded to the backend.
#[derive(Debug)]
pub struct BackendSnapshotPayload {
    pub range: String,
    pub window_start: i64,
    pub window_end: i64,
    pub total_tokens: i64,
    pub input_tokens: i64,
    pub output_tokens: i64,
    pub cache_read_tokens: i64,
    pub cache_creation_tokens: i64,
    pub request_count: i64,
    pub total_cost_usd: String,
}

/// The upload of the local usage of a period's window.
pub fn snapshot_payload(
    range: LeaderboardRange,
    window_start: i64,
    window_end: i64,
    summary: &UsageSummary,
) -> (p: BackendSnapshotPayload)
    requires
        summary_total_fits(*summary),
    ensures
        p.range@ == range_key(range),
        p.window_start == window_start,
        p.window_end == window_end,
        p.input_tokens == snapshot_of_summary(*summary).input_tokens,
        p.output_tokens == snapshot_of_summary(*summary).output_tokens,
        p.cache_read_tokens == snapshot_of_summary(*summary).cache_read_tokens,
        p.cache_creation_tokens == snapshot_of_summary(*summary).cache_creation_tokens,
        p.total_tokens == snapshot_total(p.input_tokens, p.output_tokens, p.cache_read_tokens, p.cache_creation_tokens),
        p.request_count == snapshot_of_summary(*summary).request_count,
        p.total_cost_usd@ == summary.total_cost@,
{
    let snapshot = crate::model::LocalSnapshot::from_usage_summary(summary);
    let total = snapshot.total_tokens();
    BackendSnapshotPayload {
        range: owned(range.as_str()),
        window_start,
        window_end,
        total_tokens: total,
        input_tokens: snapshot.input_tokens,
        output_tokens: snapshot.output_tokens,
        cache_read_tokens: snapshot.cache_read_tokens,
        cache_creation_tokens: snapshot.cache_creation_tokens,
        request_count: snapshot.request_count,
        total_cost_usd: snapshot.total_cost_usd,
    }
}

} // verus!
