use token_use::model::AppError;
use token_use::remote::{
    backend_base_url, check_http_status, github_oauth_client_id, DEFAULT_BACKEND_BASE_URL,
    DEFAULT_GITHUB_OAUTH_CLIENT_ID,
};
use token_use::text::trim;
use token_use::tray::{
    format_usage_suffix, section_label, tray_menu_action, usage_tooltip, TrayMenuAction,
};

#[test]
fn backend_url_defaults_and_trims_slashes() {
    assert_eq!(backend_base_url(None), DEFAULT_BACKEND_BASE_URL);
    assert_eq!(backend_base_url(Some("   ".to_string())), DEFAULT_BACKEND_BASE_URL);
    assert_eq!(
        backend_base_url(Some("http://localhost:6655///".to_string())),
        "http://localhost:6655"
    );
    assert_eq!(backend_base_url(Some("x".to_string())), "x");
}

#[test]
fn client_id_precedence_and_blank_refusal() {
    assert_eq!(
        github_oauth_client_id(None, None, None).unwrap(),
        DEFAULT_GITHUB_OAUTH_CLIENT_ID
    );
    assert_eq!(
        github_oauth_client_id(Some(" abc ".to_string()), Some("legacy".to_string()), None).unwrap(),
        "abc"
    );
    assert_eq!(
        github_oauth_client_id(None, Some("legacy".to_string()), Some("built".to_string())).unwrap(),
        "legacy"
    );
    assert_eq!(
        github_oauth_client_id(None, None, Some("built".to_string())).unwrap(),
        "built"
    );
    match github_oauth_client_id(Some("  ".to_string()), Some("legacy".to_string()), None) {
        Err(AppError::Localized { key, .. }) => {
            assert_eq!(key, "leaderboard.githubClientIdNotConfigured")
        }
        _ => panic!("expected a refusal"),
    }
}

#[test]
fn http_status_gate() {
    assert_eq!(check_http_status(200, "ok".to_string()).unwrap(), "ok");
    assert_eq!(check_http_status(299, "b".to_string()).unwrap(), "b");
    match check_http_status(404, "missing".to_string()) {
        Err(AppError::HttpStatus { status, body }) => {
            assert_eq!(status, 404);
            assert_eq!(body, "missing");
        }
        _ => panic!("expected a status error"),
    }
    assert!(check_http_status(199, String::new()).is_err());
    assert!(check_http_status(300, String::new()).is_err());
}

#[test]
fn trimming_matches_str_trim() {
    for s in ["", "  ", " a b ", "\u{3000}x\u{2002}", "\tid\n", "plain"] {
        assert_eq!(trim(s), s.trim());
    }
}

#[test]
fn tray_menu_events() {
    assert_eq!(tray_menu_action("show_main"), TrayMenuAction::ShowMain);
    assert_eq!(tray_menu_action("quit"), TrayMenuAction::Quit);
    assert_eq!(tray_menu_action("other"), TrayMenuAction::Unhandled);
}

#[test]
fn tray_labels() {
    assert_eq!(usage_tooltip("1.2K"), "Token Use · Today 1.2K tokens");
    assert_eq!(section_label("Codex", "OpenAI", " · x"), "Codex · OpenAI · x");
    assert_eq!(section_label("Gemini", "Google", ""), "Gemini · Google");
}

#[test]
fn usage_suffix_choice() {
    let r = format_usage_suffix(true, Some("s".to_string()), Some("official"), Some("q".to_string()));
    assert_eq!(r.suffix.as_deref(), Some(" · s"));
    assert!(!r.invalidate_script_cache);

    let r = format_usage_suffix(true, None, Some("official"), Some("q".to_string()));
    assert_eq!(r.suffix.as_deref(), Some(" · q"));
    assert!(!r.invalidate_script_cache);

    let r = format_usage_suffix(false, Some("s".to_string()), Some("official"), Some("q".to_string()));
    assert_eq!(r.suffix.as_deref(), Some(" · q"));
    assert!(r.invalidate_script_cache);

    let r = format_usage_suffix(false, None, Some("custom"), Some("q".to_string()));
    assert_eq!(r.suffix, None);
    assert!(r.invalidate_script_cache);
}
