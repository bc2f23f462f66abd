use token_use::login::{
    apply_backend_login_status, apply_github_token_response, apply_github_user,
    backend_auth_token, get_remote_leaderboard_entries, poll_github_device_login_at,
    remote_opt_in_token, set_remote_leaderboard_opt_in, snapshot_payload,
    start_github_device_login, BackendLoginStatus, GithubTokenResponse, GithubUserResponse,
    LoginPoll, RemoteEntriesPlan, TokenPoll,
};
use token_use::model::{AppError, GithubDeviceLoginStart, LeaderboardProfile, LocalSnapshot, UsageSummary};
use token_use::clock::{new_session_id, now_unix, session_id_of_bytes};
use token_use::range::{today_window_from, LeaderboardRange, LocalMidnight};
use token_use::ranking::check_summary_total_fits;
use token_use::store::{Database, ProfileRow};

fn summary(input: u64, output: u64, cache_read: u64, cache_creation: u64, requests: u64, cost: &str) -> UsageSummary {
    UsageSummary {
        total_input_tokens: input,
        total_output_tokens: output,
        total_cache_read_tokens: cache_read,
        total_cache_creation_tokens: cache_creation,
        total_requests: requests,
        total_cost: cost.to_string(),
    }
}

fn no_usage() -> UsageSummary {
    summary(0, 0, 0, 0, 0, "0.000000")
}

const WINDOW_START: i64 = 1_700_000_000;
const WINDOW_END: i64 = 1_700_050_000;

#[test]
fn leaderboard_entries_require_opt_in() -> Result<(), AppError> {
    let mut db = Database::new();
    db.upsert_leaderboard_profile("u1", "alice", "Alice", None, false, None)?;

    let result = db.get_leaderboard_entries(LeaderboardRange::Today, WINDOW_START, WINDOW_END, &no_usage())?;

    assert!(result.entries.is_empty());
    Ok(())
}

#[test]
fn leaderboard_entry_uses_total_token_consumption() -> Result<(), AppError> {
    let mut db = Database::new();
    let range = LeaderboardRange::Today;
    db.upsert_leaderboard_profile("u2", "bob", "Bob", None, true, None)?;
    db.upsert_local_snapshot(
        "u2",
        range,
        WINDOW_START,
        WINDOW_END,
        &LocalSnapshot {
            input_tokens: 500,
            output_tokens: 400,
            cache_read_tokens: 50,
            cache_creation_tokens: 50,
            request_count: 9,
            total_cost_usd: "0.500000".to_string(),
        },
    )?;
    db.upsert_leaderboard_profile("u1", "alice", "Alice", None, true, None)?;

    let result = db.get_leaderboard_entries(
        range,
        WINDOW_START,
        WINDOW_END,
        &summary(100, 50, 20, 10, 1, "0.010000"),
    )?;

    assert_eq!(result.entries.len(), 2);
    assert_eq!(result.entries[0].github_login, "bob");
    assert_eq!(result.entries[0].rank, 1);
    assert_eq!(result.entries[1].github_login, "alice");
    assert_eq!(result.entries[1].rank, 2);
    assert_eq!(result.entries[1].total_tokens, 180);
    assert!(result.entries[1].is_current_user);
    Ok(())
}

#[test]
fn opted_out_user_keeps_login_but_leaves_the_board() -> Result<(), AppError> {
    let mut db = Database::new();
    let range = LeaderboardRange::SevenDays;
    db.upsert_leaderboard_profile("u1", "alice", "Alice", None, true, Some("tok"))?;
    let first = db.get_leaderboard_entries(range, WINDOW_START, WINDOW_END, &summary(10, 0, 0, 0, 1, "0"))?;
    assert_eq!(first.entries.len(), 1);

    let p = db.set_leaderboard_opt_in(false)?;
    assert_eq!(p.user_id, "u1");
    assert!(!p.opted_in);
    assert_eq!(db.get_leaderboard_profile()?.unwrap().auth_token.as_deref(), Some("tok"));
    let own = db.get_leaderboard_entries(range, WINDOW_START, WINDOW_END, &summary(10, 0, 0, 0, 1, "0"))?;
    assert!(own.entries.is_empty());

    db.upsert_leaderboard_profile("u2", "bob", "Bob", None, true, None)?;
    let other = db.get_leaderboard_entries(range, WINDOW_START, WINDOW_END, &summary(5, 0, 0, 0, 1, "0"))?;
    assert_eq!(other.entries.len(), 1);
    assert_eq!(other.entries[0].user_id, "u2");
    assert_eq!(other.range, "7d");
    Ok(())
}

#[test]
fn range_keys_parse_back() {
    for r in [LeaderboardRange::Today, LeaderboardRange::SevenDays, LeaderboardRange::ThirtyDays] {
        assert_eq!(LeaderboardRange::parse(r.as_str()).ok(), Some(r));
    }
    assert_eq!(LeaderboardRange::Today.days_back(), 0);
    assert_eq!(LeaderboardRange::SevenDays.days_back(), 6);
    assert_eq!(LeaderboardRange::ThirtyDays.days_back(), 29);
    match LeaderboardRange::parse("90d") {
        Err(AppError::InvalidInput(m)) => assert_eq!(m, "不支持的排行周期: 90d"),
        _ => panic!("expected invalid input"),
    }
}

#[test]
fn profile_upsert_reads_back_and_keeps_token() -> Result<(), AppError> {
    let mut db = Database::new();
    assert!(db.get_leaderboard_profile()?.is_none());
    let p = db.upsert_leaderboard_profile("u1", "alice", "Alice", Some("a.png"), false, Some("tok"))?;
    assert_eq!(p.auth_token.as_deref(), Some("tok"));
    let joined = p.joined_at;
    let q = db.upsert_leaderboard_profile("u1", "alice2", "Alice B", None, true, None)?;
    assert_eq!(q.github_login, "alice2");
    assert_eq!(q.display_name, "Alice B");
    assert_eq!(q.avatar_url, None);
    assert!(q.opted_in);
    assert_eq!(q.auth_token.as_deref(), Some("tok"));
    assert_eq!(q.joined_at, joined);
    let current = db.get_leaderboard_profile()?.expect("signed in");
    assert_eq!(current.user_id, "u1");
    assert_eq!(db.profile_rows().len(), 1);

    db.upsert_leaderboard_profile("u2", "bob", "Bob", None, false, None)?;
    assert_eq!(db.get_leaderboard_profile()?.unwrap().user_id, "u2");
    assert_eq!(db.profile_rows().iter().filter(|r| r.is_current).count(), 1);
    Ok(())
}

#[test]
fn opt_in_needs_a_profile() -> Result<(), AppError> {
    let mut db = Database::new();
    match db.set_leaderboard_opt_in(true) {
        Err(AppError::InvalidInput(m)) => assert_eq!(m, "请先使用 GitHub 登录"),
        _ => panic!("expected invalid input"),
    }
    db.upsert_leaderboard_profile("u1", "alice", "Alice", None, false, None)?;
    let p = db.set_leaderboard_opt_in(true)?;
    assert!(p.opted_in);
    assert!(db.get_leaderboard_profile()?.unwrap().opted_in);
    Ok(())
}

#[test]
fn sign_out_forgets_profiles_and_sessions_but_not_snapshots() -> Result<(), AppError> {
    let mut db = Database::new();
    db.upsert_leaderboard_profile("u1", "alice", "Alice", None, true, None)?;
    db.create_github_auth_session("dev", 10)?;
    db.get_leaderboard_entries(LeaderboardRange::Today, 0, 10, &summary(1, 1, 1, 1, 1, "0"))?;
    db.sign_out_leaderboard()?;
    assert!(db.get_leaderboard_profile()?.is_none());
    assert!(db.session_rows().is_empty());
    assert_eq!(db.snapshot_rows().len(), 1);
    Ok(())
}

#[test]
fn session_lifecycle() -> Result<(), AppError> {
    let mut db = Database::new();
    let id = db.create_github_auth_session("device-code", 1234)?;
    assert_eq!(id.len(), 36);
    for (i, c) in id.chars().enumerate() {
        if [8, 13, 18, 23].contains(&i) {
            assert_eq!(c, '-');
        } else {
            assert!(c.is_ascii_digit() || ('a'..='f').contains(&c), "not lowercase hex: {id}");
        }
    }
    assert_eq!(id.chars().nth(14), Some('4'));
    assert!(matches!(id.chars().nth(19), Some('8' | '9' | 'a' | 'b')));
    let s = db.get_github_auth_session(&id)?;
    assert_eq!(s.device_code, "device-code");
    assert_eq!(s.expires_at, 1234);
    assert_eq!(s.completed_at, None);
    assert!(db.session_rows()[0].created_at > 1_600_000_000, "created at the clock's time");
    db.complete_github_auth_session_at(&id, 99)?;
    assert_eq!(db.get_github_auth_session(&id)?.completed_at, Some(99));
    db.fail_github_auth_session(&id, "access_denied")?;
    assert_eq!(db.session_rows()[0].error.as_deref(), Some("access_denied"));
    match db.get_github_auth_session("missing") {
        Err(AppError::InvalidInput(m)) => assert_eq!(m, "GitHub 登录会话不存在或已失效"),
        _ => panic!("expected invalid input"),
    }
    match db.create_github_auth_session_with("x", 1, id.clone(), 5) {
        Err(AppError::Database(_)) => {}
        _ => panic!("expected a refused duplicate"),
    }
    Ok(())
}

#[test]
fn snapshot_upsert_replaces_the_window_row() -> Result<(), AppError> {
    let mut db = Database::new();
    db.upsert_leaderboard_profile("u1", "alice", "Alice", None, true, None)?;
    db.get_leaderboard_entries(LeaderboardRange::SevenDays, 0, 10, &summary(1, 2, 3, 4, 5, "0.1"))?;
    let r = db.get_leaderboard_entries_at(LeaderboardRange::SevenDays, 0, 10, &summary(10, 20, 30, 40, 6, "0.2"), 77)?;
    assert_eq!(db.snapshot_rows().len(), 1);
    assert_eq!(r.entries.len(), 1);
    assert_eq!(r.entries[0].total_tokens, 100);
    assert_eq!(r.entries[0].request_count, 6);
    assert_eq!(r.entries[0].total_cost_usd, "0.2");
    assert_eq!(r.updated_at, Some(77));
    assert_eq!(r.range, "7d");
    Ok(())
}

#[test]
fn ranking_order_ties_and_limit() -> Result<(), AppError> {
    let mut db = Database::new();
    let range = LeaderboardRange::ThirtyDays;
    for i in 0..105i64 {
        let uid = format!("u{i:03}");
        let login = format!("user{}", 200 - i);
        db.upsert_leaderboard_profile(&uid, &login, "N", None, i % 7 != 3, None)?;
        db.upsert_local_snapshot_at(
            &uid,
            range,
            0,
            10,
            &LocalSnapshot {
                input_tokens: i % 10,
                output_tokens: 0,
                cache_read_tokens: 0,
                cache_creation_tokens: 0,
                request_count: i % 3,
                total_cost_usd: "0".to_string(),
            },
            i,
        )?;
    }
    let r = db.query_snapshot_entries("u050", range, 0, 10)?;
    assert_eq!(r.entries.len(), 90);
    for (k, e) in r.entries.iter().enumerate() {
        assert_eq!(e.rank, k as i64 + 1);
        assert_eq!(e.is_current_user, e.user_id == "u050");
    }
    for w in r.entries.windows(2) {
        let (a, b) = (&w[0], &w[1]);
        assert!(
            (a.total_tokens, a.request_count) > (b.total_tokens, b.request_count)
                || ((a.total_tokens, a.request_count) == (b.total_tokens, b.request_count)
                    && a.github_login <= b.github_login)
        );
    }
    assert_eq!(r.updated_at, Some(104));
    Ok(())
}

#[test]
fn ranking_keeps_the_first_hundred() -> Result<(), AppError> {
    let mut db = Database::new();
    let range = LeaderboardRange::Today;
    for i in 0..120i64 {
        let uid = format!("u{i}");
        db.upsert_leaderboard_profile(&uid, &uid, "N", None, true, None)?;
        db.upsert_local_snapshot_at(
            &uid,
            range,
            5,
            6,
            &LocalSnapshot {
                input_tokens: i,
                output_tokens: 0,
                cache_read_tokens: 0,
                cache_creation_tokens: 0,
                request_count: 0,
                total_cost_usd: "0".to_string(),
            },
            1000 - i,
        )?;
    }
    let r = db.query_snapshot_entries("u119", range, 5, 6)?;
    assert_eq!(r.entries.len(), 100);
    assert_eq!(r.entries[0].user_id, "u119");
    assert!(r.entries[0].is_current_user);
    assert_eq!(r.entries[99].total_tokens, 20);
    assert_eq!(r.updated_at, Some(1000 - 20));
    Ok(())
}

fn remote_start(session_id: &str) -> GithubDeviceLoginStart {
    GithubDeviceLoginStart {
        session_id: session_id.to_string(),
        user_code: "ABCD-1234".to_string(),
        verification_uri: "https://github.com/login/device".to_string(),
        expires_at: 1_000,
        interval_seconds: 5,
    }
}

fn profile(user_id: &str, login: &str, opted_in: bool) -> LeaderboardProfile {
    LeaderboardProfile {
        user_id: user_id.to_string(),
        github_login: login.to_string(),
        display_name: login.to_uppercase(),
        avatar_url: None,
        opted_in,
        joined_at: 0,
        auth_token: None,
    }
}

#[test]
fn backend_login_flow() -> Result<(), AppError> {
    let mut db = Database::new();
    let start = start_github_device_login(&mut db, remote_start("remote-1"))?;
    assert_eq!(start.user_code, "ABCD-1234");
    assert_ne!(start.session_id, "remote-1");
    assert_eq!(db.get_github_auth_session(&start.session_id)?.device_code, "backend:remote-1");

    match poll_github_device_login_at(&mut db, &start.session_id, 10)? {
        LoginPoll::AskBackend { session_id, remote_session_id } => {
            assert_eq!(session_id, start.session_id);
            assert_eq!(remote_session_id, "remote-1");
        }
        _ => panic!("expected a backend poll"),
    }

    let pending = apply_backend_login_status(
        &mut db,
        &start.session_id,
        BackendLoginStatus {
            status: "pending".to_string(),
            profile: None,
            auth_token: None,
            retry_after_seconds: Some(5),
            message: None,
        },
    )?;
    assert_eq!(pending.status, "pending");
    assert_eq!(pending.retry_after_seconds, Some(5));
    assert!(pending.profile.is_none());

    match apply_backend_login_status(
        &mut db,
        &start.session_id,
        BackendLoginStatus {
            status: "authorized".to_string(),
            profile: None,
            auth_token: None,
            retry_after_seconds: None,
            message: None,
        },
    ) {
        Err(AppError::Message(m)) => assert_eq!(m, "Token Use 后端登录成功但缺少用户资料"),
        _ => panic!("expected a refusal"),
    }

    let done = apply_backend_login_status(
        &mut db,
        &start.session_id,
        BackendLoginStatus {
            status: "authorized".to_string(),
            profile: Some(profile("github:7", "octo", true)),
            auth_token: Some("backend-token".to_string()),
            retry_after_seconds: None,
            message: None,
        },
    )?;
    assert_eq!(done.status, "authorized");
    let p = done.profile.expect("profile");
    assert_eq!(p.user_id, "github:7");
    assert_eq!(p.auth_token.as_deref(), Some("backend-token"));
    assert!(db.get_github_auth_session(&start.session_id)?.completed_at.is_some());

    match poll_github_device_login_at(&mut db, &start.session_id, 2_000)? {
        LoginPoll::Finished(s) => {
            assert_eq!(s.status, "completed");
            assert_eq!(s.profile.unwrap().user_id, "github:7");
        }
        _ => panic!("expected a finished poll"),
    }

    assert_eq!(remote_opt_in_token(&db)?, "backend-token");
    let updated = set_remote_leaderboard_opt_in(&mut db, "backend-token", &profile("github:7", "octo", false))?;
    assert!(!updated.opted_in);
    assert_eq!(updated.auth_token.as_deref(), Some("backend-token"));
    Ok(())
}

#[test]
fn backend_denial_is_recorded() -> Result<(), AppError> {
    let mut db = Database::new();
    let start = start_github_device_login(&mut db, remote_start("r"))?;
    let s = apply_backend_login_status(
        &mut db,
        &start.session_id,
        BackendLoginStatus {
            status: "denied".to_string(),
            profile: None,
            auth_token: None,
            retry_after_seconds: None,
            message: Some("no".to_string()),
        },
    )?;
    assert_eq!(s.status, "denied");
    assert_eq!(s.message.as_deref(), Some("no"));
    assert_eq!(db.session_rows()[0].error.as_deref(), Some("denied"));
    Ok(())
}

#[test]
fn expired_session_is_reported() -> Result<(), AppError> {
    let mut db = Database::new();
    let id = db.create_github_auth_session("device", 100)?;
    match poll_github_device_login_at(&mut db, &id, 100)? {
        LoginPoll::Finished(s) => {
            assert_eq!(s.status, "expired");
            assert_eq!(s.message.as_deref(), Some("GitHub 验证码已过期，请重新登录。"));
        }
        _ => panic!("expected a finished poll"),
    }
    assert_eq!(db.session_rows()[0].error.as_deref(), Some("expired"));
    match poll_github_device_login_at(&mut db, "unknown", 0) {
        Err(AppError::InvalidInput(_)) => {}
        _ => panic!("expected invalid input"),
    }
    Ok(())
}

fn token_reply(access_token: Option<&str>, error: Option<&str>, description: Option<&str>, interval: Option<u64>) -> GithubTokenResponse {
    GithubTokenResponse {
        access_token: access_token.map(String::from),
        error: error.map(String::from),
        error_description: description.map(String::from),
        interval,
    }
}

#[test]
fn github_token_answers() -> Result<(), AppError> {
    let mut db = Database::new();
    let id = db.create_github_auth_session("device", i64::MAX)?;
    match poll_github_device_login_at(&mut db, &id, 0)? {
        LoginPoll::AskGithub { device_code, .. } => assert_eq!(device_code, "device"),
        _ => panic!("expected a GitHub poll"),
    }
    match apply_github_token_response(&mut db, &id, token_reply(None, Some("authorization_pending"), None, None))? {
        TokenPoll::Finished(s) => {
            assert_eq!(s.status, "pending");
            assert_eq!(s.retry_after_seconds, Some(5));
        }
        _ => panic!("expected pending"),
    }
    match apply_github_token_response(&mut db, &id, token_reply(None, Some("slow_down"), Some("slow"), None))? {
        TokenPoll::Finished(s) => {
            assert_eq!(s.status, "pending");
            assert_eq!(s.retry_after_seconds, Some(10));
            assert_eq!(s.message.as_deref(), Some("slow"));
        }
        _ => panic!("expected pending"),
    }
    match apply_github_token_response(&mut db, &id, token_reply(None, Some("slow_down"), None, Some(15)))? {
        TokenPoll::Finished(s) => assert_eq!(s.retry_after_seconds, Some(15)),
        _ => panic!("expected pending"),
    }
    assert_eq!(db.session_rows()[0].error, None);
    match apply_github_token_response(&mut db, &id, token_reply(None, Some("token_expired"), None, None))? {
        TokenPoll::Finished(s) => assert_eq!(s.status, "expired"),
        _ => panic!("expected expired"),
    }
    match apply_github_token_response(&mut db, &id, token_reply(None, Some("access_denied"), None, None))? {
        TokenPoll::Finished(s) => {
            assert_eq!(s.status, "denied");
            assert_eq!(s.message.as_deref(), Some("GitHub 授权已取消。"));
        }
        _ => panic!("expected denied"),
    }
    match apply_github_token_response(&mut db, &id, token_reply(None, Some("weird"), None, None)) {
        Err(AppError::Message(m)) => assert_eq!(m, "GitHub 授权失败: weird"),
        _ => panic!("expected a refusal"),
    }
    assert_eq!(db.session_rows()[0].error.as_deref(), Some("weird"));
    match apply_github_token_response(&mut db, &id, token_reply(None, Some("weird"), Some("why"), None)) {
        Err(AppError::Message(m)) => assert_eq!(m, "GitHub 授权失败: why"),
        _ => panic!("expected a refusal"),
    }
    match apply_github_token_response(&mut db, &id, token_reply(None, None, None, None)) {
        Err(AppError::Message(m)) => assert_eq!(m, "GitHub 响应缺少 access_token"),
        _ => panic!("expected a refusal"),
    }
    match apply_github_token_response(&mut db, &id, token_reply(Some("gho_x"), None, None, None))? {
        TokenPoll::FetchUser { access_token } => assert_eq!(access_token, "gho_x"),
        _ => panic!("expected a user fetch"),
    }
    Ok(())
}

#[test]
fn github_user_becomes_the_profile() -> Result<(), AppError> {
    let mut db = Database::new();
    db.upsert_leaderboard_profile("github:42", "old", "Old", None, true, Some("t"))?;
    let id = db.create_github_auth_session("device", i64::MAX)?;
    let s = apply_github_user(
        &mut db,
        &id,
        GithubUserResponse {
            id: 42,
            login: "octocat".to_string(),
            name: None,
            avatar_url: Some("https://avatars/1".to_string()),
        },
    )?;
    assert_eq!(s.status, "authorized");
    let p = s.profile.unwrap();
    assert_eq!(p.user_id, "github:42");
    assert_eq!(p.display_name, "octocat");
    assert!(p.opted_in);
    assert_eq!(p.auth_token.as_deref(), Some("t"));
    assert!(db.get_github_auth_session(&id)?.completed_at.is_some());

    let s2 = apply_github_user(
        &mut db,
        &id,
        GithubUserResponse {
            id: 7,
            login: "other".to_string(),
            name: Some("Other Person".to_string()),
            avatar_url: None,
        },
    )?;
    let p2 = s2.profile.unwrap();
    assert_eq!(p2.user_id, "github:7");
    assert_eq!(p2.display_name, "Other Person");
    assert!(!p2.opted_in);
    Ok(())
}

#[test]
fn backend_token_checks() -> Result<(), AppError> {
    let mut p = profile("u", "l", true);
    assert!(matches!(backend_auth_token(&p), Err(AppError::InvalidInput(_))));
    p.auth_token = Some("  \t".to_string());
    match backend_auth_token(&p) {
        Err(AppError::InvalidInput(m)) => assert_eq!(m, "排行登录已失效，请重新使用 GitHub 登录。"),
        _ => panic!("expected invalid input"),
    }
    p.auth_token = Some(" tok ".to_string());
    assert_eq!(backend_auth_token(&p)?, " tok ");

    let mut db = Database::new();
    assert!(matches!(remote_opt_in_token(&db), Err(AppError::InvalidInput(_))));
    match get_remote_leaderboard_entries(&db, LeaderboardRange::Today)? {
        RemoteEntriesPlan::Finished(r) => {
            assert!(r.entries.is_empty());
            assert_eq!(r.range, "today");
        }
        _ => panic!("expected an empty board"),
    }
    db.upsert_leaderboard_profile("u", "l", "L", None, true, None)?;
    assert!(get_remote_leaderboard_entries(&db, LeaderboardRange::Today).is_err());
    db.upsert_leaderboard_profile("u", "l", "L", None, true, Some("tk"))?;
    match get_remote_leaderboard_entries(&db, LeaderboardRange::SevenDays)? {
        RemoteEntriesPlan::Upload { auth_token } => assert_eq!(auth_token, "tk"),
        _ => panic!("expected an upload"),
    }
    Ok(())
}

#[test]
fn upload_payload_sums_tokens() {
    let p = snapshot_payload(LeaderboardRange::ThirtyDays, 1, 2, &summary(100, 20, 10, 7, 3, "0.1"));
    assert_eq!(p.range, "30d");
    assert_eq!(p.total_tokens, 137);
    assert_eq!(p.request_count, 3);
    assert_eq!(p.total_cost_usd, "0.1");
    assert_eq!((p.window_start, p.window_end), (1, 2));
}

#[test]
fn snapshot_total_tokens_is_the_token_sum() {
    let s = LocalSnapshot::from_usage_summary(&summary(300, 60, 20, 5, 2, "0.3"));
    assert_eq!(s.total_tokens(), 385);
    assert_eq!(s.request_count, 2);
}

fn profile_row(user_id: &str, current: bool, updated_at: i64) -> ProfileRow {
    ProfileRow {
        user_id: user_id.to_string(),
        github_login: user_id.to_string(),
        display_name: user_id.to_string(),
        avatar_url: None,
        auth_token: None,
        opted_in: true,
        is_current: current,
        joined_at: 1,
        updated_at,
    }
}

#[test]
fn loaded_rows_keep_only_the_latest_current_profile() -> Result<(), AppError> {
    let rows = vec![
        profile_row("u1", true, 10),
        profile_row("u2", true, 30),
        profile_row("u3", false, 50),
        profile_row("u4", true, 30),
    ];
    let db = Database::from_rows(rows, Vec::new(), Vec::new()).expect("keys are unique");
    assert_eq!(db.get_leaderboard_profile()?.unwrap().user_id, "u2");
    let current: Vec<bool> = db.profile_rows().iter().map(|r| r.is_current).collect();
    assert_eq!(current, vec![false, true, false, false]);

    let repeated = vec![profile_row("u1", false, 1), profile_row("u1", false, 2)];
    assert!(Database::from_rows(repeated, Vec::new(), Vec::new()).is_none());
    Ok(())
}

#[test]
fn sign_out_twice_and_unused_summary() -> Result<(), AppError> {
    let mut db = Database::new();
    db.upsert_leaderboard_profile("u1", "alice", "Alice", None, true, Some("tok"))?;
    let id = db.create_github_auth_session("dev", 10)?;
    db.sign_out_leaderboard()?;
    db.sign_out_leaderboard()?;
    assert!(db.get_leaderboard_profile()?.is_none());
    assert!(db.get_github_auth_session(&id).is_err());
    // Signed out, no snapshot is computed, so an overflowing summary is fine.
    let huge = summary(i64::MAX as u64, 1, 0, 0, 0, "0");
    assert!(!check_summary_total_fits(&huge));
    assert!(check_summary_total_fits(&summary(1, 2, 3, 4, 0, "0")));
    let res = db.get_leaderboard_entries(LeaderboardRange::Today, 0, 10, &huge)?;
    assert!(res.entries.is_empty());
    assert_eq!(res.updated_at, None);
    Ok(())
}

#[test]
fn session_ids_are_uuid_v4_texts_of_their_bytes() {
    assert_eq!(session_id_of_bytes([0u8; 16]), "00000000-0000-4000-8000-000000000000");
    assert_eq!(session_id_of_bytes([0xffu8; 16]), "ffffffff-ffff-4fff-bfff-ffffffffffff");
    let bytes = [70, 235, 208, 238, 14, 109, 67, 201, 185, 13, 204, 195, 90, 145, 63, 62];
    assert_eq!(session_id_of_bytes(bytes), "46ebd0ee-0e6d-43c9-b90d-ccc35a913f3e");
    let id = new_session_id().expect("random source available");
    assert_eq!(id.len(), 36);
    assert!(now_unix().expect("clock after the epoch") > 1_600_000_000);
}

#[test]
fn windows_follow_the_zone_answer_about_midnight() {
    let now = 1_700_050_000;
    let r = LeaderboardRange::SevenDays;
    assert_eq!(r.window_from(now, LocalMidnight::Single(1_699_500_000)), (1_699_500_000, now));
    assert_eq!(r.window_from(now, LocalMidnight::Ambiguous(10, 20)), (10, now));
    assert_eq!(r.window_from(now, LocalMidnight::Missing), (now - 7 * 86_400, now));
    assert_eq!(LeaderboardRange::Today.window_from(now, LocalMidnight::Missing), (now - 86_400, now));
    assert_eq!(LeaderboardRange::ThirtyDays.window_from(now, LocalMidnight::Missing), (now - 30 * 86_400, now));
    assert_eq!(r.window_from(now, LocalMidnight::NoDayStart), (now, now));
    assert_eq!(today_window_from(now, LocalMidnight::Ambiguous(5, 9)), (5, now));
    assert_eq!(today_window_from(now, LocalMidnight::Missing), (now, now));
}
