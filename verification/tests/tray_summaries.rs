use token_use::tray::{
    compact_token_scale, emoji_for_utilization, format_subscription_summary,
    summarize_usage_script, CompactScale, QuotaTier, SubscriptionQuota,
    TrayTexts, UsagePercent, TIER_FIVE_HOUR, TIER_WEEKLY_LIMIT, TRAY_ID,
};

fn make_quota(tool: &str, success: bool, tiers: Vec<QuotaTier>) -> SubscriptionQuota {
    SubscriptionQuota {
        tool: tool.to_string(),
        success,
        tiers,
    }
}

fn tier(name: &str, utilization: f64) -> QuotaTier {
    QuotaTier {
        name: name.to_string(),
        utilization_bits: utilization.to_bits(),
        resets_at: None,
    }
}

/// A usage entry with a total of 100 and `utilization` used; its percent is
/// `used / total * 100`, as the app computes it for entries with a positive
/// total.
fn usage_data(plan_name: Option<&str>, utilization: f64) -> UsagePercent {
    let total = 100.0_f64;
    let used = utilization;
    UsagePercent {
        plan_name: plan_name.map(String::from),
        percent_bits: Some((used / total * 100.0).to_bits()),
    }
}

fn script_summary(success: bool, data: Vec<UsagePercent>) -> Option<String> {
    summarize_usage_script(success, &data)
}

#[test]
fn tray_id_is_unique_to_app() {
    assert_eq!(TRAY_ID, "token-use");
    assert_ne!(TRAY_ID, "main");
}

#[test]
fn claude_summary_uses_h_and_w_labels() {
    let quota = make_quota(
        "codex",
        true,
        vec![tier("five_hour", 9.0), tier("seven_day", 27.0)],
    );
    let s = format_subscription_summary(&quota).expect("should format");
    assert!(s.contains("h9%"), "expected h9% in {s}");
    assert!(s.contains("w27%"), "expected w27% in {s}");
}

#[test]
fn gemini_summary_uses_p_and_f_labels() {
    let quota = make_quota(
        "gemini",
        true,
        vec![tier("gemini_pro", 15.0), tier("gemini_flash", 42.0)],
    );
    let s = format_subscription_summary(&quota).expect("should format");
    assert!(s.contains("p15%"), "expected p15% in {s}");
    assert!(s.contains("f42%"), "expected f42% in {s}");
}

#[test]
fn gemini_summary_includes_all_three_tiers() {
    let quota = make_quota(
        "gemini",
        true,
        vec![
            tier("gemini_pro", 5.0),
            tier("gemini_flash", 42.0),
            tier("gemini_flash_lite", 80.0),
        ],
    );
    let s = format_subscription_summary(&quota).expect("should format");
    assert!(s.contains("p5%"), "expected p5% in {s}");
    assert!(s.contains("f42%"), "expected f42% in {s}");
    assert!(s.contains("l80%"), "expected l80% in {s}");
}

#[test]
fn gemini_summary_lite_only_still_renders() {
    let quota = make_quota("gemini", true, vec![tier("gemini_flash_lite", 80.0)]);
    let s = format_subscription_summary(&quota).expect("should format");
    assert!(s.contains("l80%"), "expected l80% in {s}");
}

#[test]
fn gemini_summary_emoji_reflects_highest_tier_including_lite() {
    let quota = make_quota(
        "gemini",
        true,
        vec![
            tier("gemini_pro", 10.0),
            tier("gemini_flash", 20.0),
            tier("gemini_flash_lite", 95.0),
        ],
    );
    let s = format_subscription_summary(&quota).unwrap();
    assert!(
        s.starts_with("\u{1F534}"),
        "expected red emoji (lite worst) in {s}"
    );
}

#[test]
fn worst_emoji_reflects_highest_utilization() {
    let quota = make_quota(
        "codex",
        true,
        vec![tier("five_hour", 10.0), tier("seven_day", 95.0)],
    );
    let s = format_subscription_summary(&quota).unwrap();
    assert!(s.starts_with("\u{1F534}"), "expected red emoji in {s}");
}

#[test]
fn failure_quota_returns_none() {
    let quota = make_quota("codex", false, vec![tier("five_hour", 50.0)]);
    assert!(format_subscription_summary(&quota).is_none());
}

#[test]
fn unknown_tiers_return_none() {
    let quota = make_quota("codex", true, vec![tier("one_hour", 80.0)]);
    assert!(format_subscription_summary(&quota).is_none());
}

#[test]
fn gemini_without_any_known_tiers_returns_none() {
    let quota = make_quota("gemini", true, vec![tier("some_future_tier", 80.0)]);
    assert!(format_subscription_summary(&quota).is_none());
}

#[test]
fn script_summary_token_plan_two_tiers() {
    let r = script_summary(
        true,
        vec![
            usage_data(Some(TIER_FIVE_HOUR), 12.0),
            usage_data(Some(TIER_WEEKLY_LIMIT), 80.0),
        ],
    );
    let s = r.expect("should format");
    assert!(s.contains("h12%"), "expected h12% in {s}");
    assert!(s.contains("w80%"), "expected w80% in {s}");
    assert!(s.starts_with("\u{1F7E0}"), "expected orange emoji in {s}");
}

#[test]
fn script_summary_token_plan_worst_drives_emoji() {
    let r = script_summary(
        true,
        vec![
            usage_data(Some(TIER_FIVE_HOUR), 20.0),
            usage_data(Some(TIER_WEEKLY_LIMIT), 95.0),
        ],
    );
    let s = r.unwrap();
    assert!(s.starts_with("\u{1F534}"), "expected red emoji in {s}");
}

#[test]
fn script_summary_token_plan_five_hour_only() {
    let r = script_summary(true, vec![usage_data(Some(TIER_FIVE_HOUR), 8.0)]);
    let s = r.expect("should format");
    assert!(s.contains("h8%"), "expected h8% in {s}");
    assert!(
        !s.contains("plan_name"),
        "plan_name should not leak into label: {s}"
    );
}

#[test]
fn script_summary_token_plan_weekly_only() {
    let r = script_summary(true, vec![usage_data(Some(TIER_WEEKLY_LIMIT), 50.0)]);
    let s = r.expect("should format");
    assert!(s.contains("w50%"), "expected w50% in {s}");
}

#[test]
fn script_summary_single_bucket_fallback_with_plan_name() {
    let r = script_summary(true, vec![usage_data(Some("Copilot Pro"), 40.0)]);
    let s = r.expect("should format");
    assert!(s.contains("Copilot Pro"), "expected plan name in {s}");
    assert!(s.contains("40%"), "expected 40% in {s}");
    assert!(
        !s.contains("h40%"),
        "must not relabel non-token-plan data as h: {s}"
    );
}

#[test]
fn script_summary_single_bucket_fallback_without_plan_name() {
    let r = script_summary(true, vec![usage_data(None, 15.0)]);
    let s = r.expect("should format");
    assert_eq!(s, "\u{1F7E2} 15%", "expected emoji + pct only, got {s}");
}

#[test]
fn script_summary_failure_returns_none() {
    let r = script_summary(false, vec![usage_data(Some(TIER_FIVE_HOUR), 12.0)]);
    assert!(r.is_none());
}

#[test]
fn script_summary_empty_data_returns_none() {
    let r = script_summary(true, vec![]);
    assert!(r.is_none());
}

#[test]
fn subscription_summary_exact_text() {
    let quota = make_quota(
        "codex",
        true,
        vec![tier("seven_day", 70.0), tier("five_hour", 9.5)],
    );
    assert_eq!(
        format_subscription_summary(&quota).unwrap(),
        "\u{1F7E0} h10% w70%"
    );
}

#[test]
fn subscription_summary_first_tier_of_a_name_wins() {
    let quota = make_quota(
        "codex",
        true,
        vec![tier("five_hour", 12.0), tier("five_hour", 99.0)],
    );
    assert_eq!(format_subscription_summary(&quota).unwrap(), "\u{1F7E2} h12%");
}

#[test]
fn subscription_summary_rounds_half_away_from_zero() {
    let quota = make_quota("codex", true, vec![tier("five_hour", 2.5), tier("seven_day", -2.5)]);
    assert_eq!(
        format_subscription_summary(&quota).unwrap(),
        "\u{1F7E2} h3% w-3%"
    );
}

#[test]
fn subscription_summary_infinite_worst_returns_none() {
    let quota = make_quota("codex", true, vec![tier("five_hour", f64::INFINITY)]);
    assert!(format_subscription_summary(&quota).is_none());
}

#[test]
fn subscription_summary_nan_only_returns_none() {
    let quota = make_quota("codex", true, vec![tier("five_hour", f64::NAN)]);
    assert!(format_subscription_summary(&quota).is_none());
}

#[test]
fn subscription_summary_nan_is_ignored_for_the_mark() {
    let quota = make_quota(
        "codex",
        true,
        vec![tier("five_hour", f64::NAN), tier("seven_day", 91.0)],
    );
    assert_eq!(
        format_subscription_summary(&quota).unwrap(),
        "\u{1F534} h0% w91%"
    );
}

#[test]
fn emoji_thresholds() {
    assert_eq!(emoji_for_utilization(69.99_f64.to_bits()), "\u{1F7E2}");
    assert_eq!(emoji_for_utilization(70.0_f64.to_bits()), "\u{1F7E0}");
    assert_eq!(emoji_for_utilization(89.9_f64.to_bits()), "\u{1F7E0}");
    assert_eq!(emoji_for_utilization(90.0_f64.to_bits()), "\u{1F534}");
    assert_eq!(emoji_for_utilization(f64::NAN.to_bits()), "\u{1F7E2}");
    assert_eq!(emoji_for_utilization(f64::INFINITY.to_bits()), "\u{1F534}");
    assert_eq!(emoji_for_utilization((-5.0_f64).to_bits()), "\u{1F7E2}");
}

#[test]
fn script_summary_without_percent_returns_none() {
    let data = vec![UsagePercent {
        plan_name: Some("Copilot Pro".to_string()),
        percent_bits: None,
    }];
    assert!(summarize_usage_script(true, &data).is_none());
}

#[test]
fn script_summary_token_plan_without_percent_falls_back() {
    let data = vec![
        UsagePercent {
            plan_name: Some(TIER_FIVE_HOUR.to_string()),
            percent_bits: None,
        },
        usage_data(Some("Other"), 30.0),
    ];
    assert!(summarize_usage_script(true, &data).is_none());
}

#[test]
fn tray_texts_follow_language() {
    assert_eq!(TrayTexts::from_language("en").show_main, "Open main window");
    assert_eq!(TrayTexts::from_language("en").quit, "Quit");
    assert_eq!(TrayTexts::from_language("ja").quit, "終了");
    assert_eq!(TrayTexts::from_language("zh").show_main, "打开主界面");
    assert_eq!(TrayTexts::from_language("fr").quit, "退出");
}

#[test]
fn compact_scale_thresholds() {
    assert!(matches!(compact_token_scale(999), CompactScale::Plain));
    match compact_token_scale(1_200) {
        CompactScale::Scaled { unit, divisor, whole } => {
            assert_eq!((unit, divisor, whole), ("K", 1_000, false));
        }
        CompactScale::Plain => panic!("expected a scale"),
    }
    match compact_token_scale(987_000_000) {
        CompactScale::Scaled { unit, divisor, whole } => {
            assert_eq!((unit, divisor, whole), ("M", 1_000_000, true));
        }
        CompactScale::Plain => panic!("expected a scale"),
    }
    match compact_token_scale(1_200_000_000) {
        CompactScale::Scaled { unit, divisor, whole } => {
            assert_eq!((unit, divisor, whole), ("B", 1_000_000_000, false));
        }
        CompactScale::Plain => panic!("expected a scale"),
    }
}
