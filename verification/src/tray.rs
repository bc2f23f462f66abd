//! The status-bar tray: menu texts, the tray's identity, and the short usage
//! summaries shown next to each app section.
use crate::float_bits::{
    bits_fold_max, bits_is_finite, bits_is_nan, bits_le, bits_round_to_i64, ext_le, extended, fold_max,
    is_nan, lemma_threshold_values, round_to_i64, Extended, NINETY_BITS, SEVENTY_BITS,
};
use crate::text::{dec_int, i64_to_decimal, opt_view, owned, str_eq};
use vstd::arithmetic::power2::pow2;
use vstd::prelude::*;

verus! {

/// The tray icon's identifier.
pub const TRAY_ID: &'static str = "token-use";

/// Tier name of the five-hour window.
pub const TIER_FIVE_HOUR: &'static str = "five_hour";

/// Tier name of the seven-day window.
pub const TIER_SEVEN_DAY: &'static str = "seven_day";

/// Tier name of the weekly limit of token plans.
pub const TIER_WEEKLY_LIMIT: &'static str = "weekly_limit";

/// Tier name of Gemini Pro.
pub const TIER_GEMINI_PRO: &'static str = "gemini_pro";

/// Tier name of Gemini Flash.
pub const TIER_GEMINI_FLASH: &'static str = "gemini_flash";

/// Tier name of Gemini Flash-Lite.
pub const TIER_GEMINI_FLASH_LITE: &'static str = "gemini_flash_lite";

/// Red circle: utilization at or above 90%.
pub const EMOJI_DANGER: &'static str = "\u{1F534}";

/// Orange circle: utilization at or above 70%.
pub const EMOJI_WARN: &'static str = "\u{1F7E0}";

/// Green circle: below 70%.
pub const EMOJI_OK: &'static str = "\u{1F7E2}";

// ---------------------------------------------------------------------------
// Menu texts
// ---------------------------------------------------------------------------

/// Tray menu texts in one language.
#[derive(Clone, Copy)]
pub struct TrayTexts {
    pub show_main: &'static str,
    pub quit: &'static str,
    pub _auto_label: &'static str,
}

impl TrayTexts {
    /// The texts for a language code: English for "en", Japanese for "ja",
    /// Chinese for anything else.
    pub fn from_language(language: &str) -> (t: TrayTexts)
        ensures
            language@ == "en"@ ==> t.show_main@ == "Open main window"@ && t.quit@ == "Quit"@
                && t._auto_label@ == "Auto (Failover)"@,
            language@ == "ja"@ ==> t.show_main@ == "メインウィンドウを開く"@ && t.quit@ == "終了"@
                && t._auto_label@ == "自動 (フェイルオーバー)"@,
            language@ != "en"@ && language@ != "ja"@ ==> t.show_main@ == "打开主界面"@ && t.quit@
                == "退出"@ && t._auto_label@ == "自动 (故障转移)"@,
    {
        proof {
            reveal_strlit("en");
            reveal_strlit("ja");
            assert("ja"@[0] != "en"@[0]);
        }
        if str_eq(language, "en") {
            TrayTexts { show_main: "Open main window", quit: "Quit", _auto_label: "Auto (Failover)" }
        } else if str_eq(language, "ja") {
            TrayTexts {
                show_main: "メインウィンドウを開く",
                quit: "終了",
                _auto_label: "自動 (フェイルオーバー)",
            }
        } else {
            TrayTexts { show_main: "打开主界面", quit: "退出", _auto_label: "自动 (故障转移)" }
        }
    }
}

/// The coding tools that have a tray section.
#[derive(Clone, Copy, PartialEq, Eq, Structural, Debug, Hash)]
pub enum AppType {
    /// Anthropic's coding CLI.
    ClaudeCode,
    /// OpenAI's Codex CLI.
    Codex,
    /// Google's Gemini CLI.
    Gemini,
}

/// A tray section: which app it shows and how it is labelled.
pub struct TrayAppSection {
    pub app_type: AppType,
    pub header_label: &'static str,
    pub log_name: &'static str,
}

// ---------------------------------------------------------------------------
// Rendering of utilization parts
// ---------------------------------------------------------------------------

/// The colour mark for a utilization value (NaN counts as low).
pub open spec fn emoji_for_value(x: Extended) -> Seq<char> {
    if ext_le(Extended::Finite(90 * (pow2(1074) as int)), x) {
        EMOJI_DANGER@
    } else if ext_le(Extended::Finite(70 * (pow2(1074) as int)), x) {
        EMOJI_WARN@
    } else {
        EMOJI_OK@
    }
}

/// The colour mark for the number with bits `b` (`emoji_for_utilization`).
pub open spec fn emoji_for_bits(b: u64) -> Seq<char> {
    if is_nan(b) {
        EMOJI_OK@
    } else {
        emoji_for_value(extended(b))
    }
}

/// "{label}{rounded}%".
pub open spec fn part_text(p: (Seq<char>, u64)) -> Seq<char> {
    p.0 + dec_int(round_to_i64(p.1)) + "%"@
}

/// The part texts joined by single spaces.
pub open spec fn join_parts(parts: Seq<(Seq<char>, u64)>) -> Seq<char>
    decreases parts.len(),
{
    if parts.len() == 0 {
        Seq::empty()
    } else if parts.len() == 1 {
        part_text(parts[0])
    } else {
        join_parts(parts.drop_last()) + " "@ + part_text(parts.last())
    }
}

/// The utilization values of the parts.
pub open spec fn part_values(parts: Seq<(Seq<char>, u64)>) -> Seq<u64> {
    parts.map_values(|p: (Seq<char>, u64)| p.1)
}

/// "{emoji} {body}" where the emoji follows the highest utilization.
pub open spec fn render_parts(parts: Seq<(Seq<char>, u64)>) -> Seq<char> {
    emoji_for_value(fold_max(part_values(parts))) + " "@ + join_parts(parts)
}

/// The spec view of labelled parts.
pub open spec fn parts_view(parts: Seq<(&'static str, u64)>) -> Seq<(Seq<char>, u64)> {
    parts.map_values(|p: (&'static str, u64)| (p.0@, p.1))
}

/// The colour mark for a utilization given by its bits.
pub fn emoji_for_utilization(b: u64) -> (s: &'static str)
    ensures
        s@ == emoji_for_bits(b),
{
    if bits_is_nan(b) {
        return EMOJI_OK;
    }
    proof {
        lemma_threshold_values();
    }
    if bits_le(NINETY_BITS, b) {
        EMOJI_DANGER
    } else if bits_le(SEVENTY_BITS, b) {
        EMOJI_WARN
    } else {
        EMOJI_OK
    }
}

fn emoji_for_non_nan(b: u64) -> (s: &'static str)
    requires
        !is_nan(b),
    ensures
        s@ == emoji_for_value(extended(b)),
{
    emoji_for_utilization(b)
}

fn render_part(label: &str, value: u64) -> (s: String)
    ensures
        s@ == part_text((label@, value)),
{
    let mut s = owned(label);
    let n = i64_to_decimal(bits_round_to_i64(value));
    s.append(n.as_str());
    s.append("%");
    s
}

/// Joins the rendered parts with single spaces.
fn join_rendered(parts: &Vec<(&'static str, u64)>) -> (s: String)
    ensures
        s@ == join_parts(parts_view(parts@)),
{
    let mut s = String::new();
    let mut i: usize = 0;
    let ghost pv = parts_view(parts@);
    while i < parts.len()
        invariant
            i <= parts.len(),
            pv == parts_view(parts@),
            s@ == join_parts(pv.subrange(0, i as int)),
        decreases parts.len() - i,
    {
        let (label, value) = parts[i];
        let piece = render_part(label, value);
        proof {
            assert(pv.subrange(0, i + 1).drop_last() =~= pv.subrange(0, i as int));
            assert(pv.subrange(0, i + 1).last() == (label@, value));
        }
        if i == 0 {
            proof {
                assert(pv.subrange(0, 0) =~= Seq::<(Seq<char>, u64)>::empty());
            }
            s = piece;
        } else {
            s.append(" ");
            s.append(piece.as_str());
        }
        i = i + 1;
    }
    proof {
        assert(pv.subrange(0, parts.len() as int) =~= pv);
    }
    s
}

fn part_values_of(parts: &Vec<(&'static str, u64)>) -> (v: Vec<u64>)
    ensures
        v@ == part_values(parts_view(parts@)),
{
    let mut v: Vec<u64> = Vec::new();
    let mut i: usize = 0;
    while i < parts.len()
        invariant
            i <= parts.len(),
            v@ == part_values(parts_view(parts@)).subrange(0, i as int),
        decreases parts.len() - i,
    {
        v.push(parts[i].1);
        proof {
            assert(v@ =~= part_values(parts_view(parts@)).subrange(0, i + 1));
        }
        i = i + 1;
    }
    proof {
        assert(v@ =~= part_values(parts_view(parts@)));
    }
    v
}

/// "{emoji} {label}{pct}% {label}{pct}% ...", the emoji following the highest
/// utilization among the parts (NaN ignored).
pub fn format_usage_parts(parts: &Vec<(&'static str, u64)>) -> (s: String)
    ensures
        s@ == render_parts(parts_view(parts@)),
{
    let values = part_values_of(parts);
    let worst = bits_fold_max(&values);
    let mut s = owned(emoji_for_non_nan(worst));
    s.append(" ");
    let body = join_rendered(parts);
    s.append(body.as_str());
    s
}

// ---------------------------------------------------------------------------
// Subscription quota summary
// ---------------------------------------------------------------------------

/// One tier of a subscription quota; the utilization (percent) is held by
/// its `f64` bit pattern.
#[derive(Debug)]
pub struct QuotaTier {
    pub name: String,
    pub utilization_bits: u64,
    pub resets_at: Option<String>,
}

/// A subscription quota as reported for one tool.
#[derive(Debug)]
pub struct SubscriptionQuota {
    pub tool: String,
    pub success: bool,
    pub tiers: Vec<QuotaTier>,
}

/// Name and utilization of each tier.
pub open spec fn tiers_view(tiers: Seq<QuotaTier>) -> Seq<(Seq<char>, u64)> {
    tiers.map_values(|t: QuotaTier| (t.name@, t.utilization_bits))
}

/// The utilization of the first tier with the given name.
pub open spec fn find_tier(tiers: Seq<(Seq<char>, u64)>, name: Seq<char>) -> Option<u64>
    decreases tiers.len(),
{
    if tiers.len() == 0 {
        None
    } else if tiers[0].0 == name {
        Some(tiers[0].1)
    } else {
        find_tier(tiers.drop_first(), name)
    }
}

/// For each wanted (label, tier name), in order, the label and the first
/// matching tier's utilization; wanted tiers that are absent are skipped.
pub open spec fn pick_parts(wanted: Seq<(Seq<char>, Seq<char>)>, tiers: Seq<(Seq<char>, u64)>) -> Seq<
    (Seq<char>, u64),
>
    decreases wanted.len(),
{
    if wanted.len() == 0 {
        Seq::empty()
    } else {
        let rest = pick_parts(wanted.drop_last(), tiers);
        match find_tier(tiers, wanted.last().1) {
            Some(u) => rest.push((wanted.last().0, u)),
            None => rest,
        }
    }
}

/// The labelled tiers a tool's summary shows: pro / flash / flash-lite for
/// Gemini, the five-hour and seven-day windows otherwise.
pub open spec fn subscription_wanted(tool: Seq<char>) -> Seq<(Seq<char>, Seq<char>)> {
    if tool == "gemini"@ {
        seq![("p"@, TIER_GEMINI_PRO@), ("f"@, TIER_GEMINI_FLASH@), ("l"@, TIER_GEMINI_FLASH_LITE@)]
    } else {
        seq![("h"@, TIER_FIVE_HOUR@), ("w"@, TIER_SEVEN_DAY@)]
    }
}

/// The summary text of a subscription quota, when there is one.
pub open spec fn subscription_summary(tool: Seq<char>, success: bool, tiers: Seq<(Seq<char>, u64)>) -> Option<
    Seq<char>,
> {
    let parts = pick_parts(subscription_wanted(tool), tiers);
    if !success || parts.len() == 0 {
        None
    } else if !(fold_max(part_values(parts)) is Finite) {
        None
    } else {
        Some(render_parts(parts))
    }
}

fn find_tier_exec(tiers: &Vec<QuotaTier>, name: &str) -> (r: Option<u64>)
    ensures
        r == find_tier(tiers_view(tiers@), name@),
{
    let ghost tv = tiers_view(tiers@);
    let mut i: usize = 0;
    assert(tv.subrange(0, tv.len() as int) =~= tv);
    while i < tiers.len()
        invariant
            i <= tiers.len(),
            tv == tiers_view(tiers@),
            find_tier(tv, name@) == find_tier(tv.subrange(i as int, tv.len() as int), name@),
        decreases tiers.len() - i,
    {
        let ghost rest = tv.subrange(i as int, tv.len() as int);
        assert(rest.drop_first() =~= tv.subrange(i + 1, tv.len() as int));
        if str_eq(tiers[i].name.as_str(), name) {
            return Some(tiers[i].utilization_bits);
        }
        i = i + 1;
    }
    None
}

fn push_if_present(
    parts: &mut Vec<(&'static str, u64)>,
    tiers: &Vec<QuotaTier>,
    label: &'static str,
    name: &'static str,
)
    ensures
        parts_view(final(parts)@) == match find_tier(tiers_view(tiers@), name@) {
            Some(u) => parts_view(old(parts)@).push((label@, u)),
            None => parts_view(old(parts)@),
        },
{
    match find_tier_exec(tiers, name) {
        Some(u) => {
            parts.push((label, u));
            proof {
                assert(parts_view(parts@) =~= parts_view(old(parts)@).push((label@, u)));
            }
        },
        None => {},
    }
}

/// The short summary of a subscription quota shown beside a tray section,
/// such as "🟢 h9% w27%": `None` for a failed query, when none of the tool's
/// tiers is present, or when the highest utilization is not finite.
pub fn format_subscription_summary(quota: &SubscriptionQuota) -> (r: Option<String>)
    ensures
        opt_view(r) == subscription_summary(quota.tool@, quota.success, tiers_view(quota.tiers@)),
{
    if !quota.success {
        return None;
    }
    let ghost tv = tiers_view(quota.tiers@);
    let ghost wanted = subscription_wanted(quota.tool@);
    let mut parts: Vec<(&'static str, u64)> = Vec::new();
    if str_eq(quota.tool.as_str(), "gemini") {
        push_if_present(&mut parts, &quota.tiers, "p", TIER_GEMINI_PRO);
        push_if_present(&mut parts, &quota.tiers, "f", TIER_GEMINI_FLASH);
        push_if_present(&mut parts, &quota.tiers, "l", TIER_GEMINI_FLASH_LITE);
        proof {
            assert(wanted.drop_last().drop_last().drop_last() =~= Seq::<(Seq<char>, Seq<char>)>::empty());
            assert(wanted.drop_last().drop_last().last() == ("p"@, TIER_GEMINI_PRO@));
            assert(wanted.drop_last().last() == ("f"@, TIER_GEMINI_FLASH@));
            assert(wanted.last() == ("l"@, TIER_GEMINI_FLASH_LITE@));
            assert(parts_view(Seq::<(&'static str, u64)>::empty()) =~= Seq::<(Seq<char>, u64)>::empty());
        }
    } else {
        push_if_present(&mut parts, &quota.tiers, "h", TIER_FIVE_HOUR);
        push_if_present(&mut parts, &quota.tiers, "w", TIER_SEVEN_DAY);
        proof {
            assert(wanted.drop_last().drop_last() =~= Seq::<(Seq<char>, Seq<char>)>::empty());
            assert(wanted.drop_last().last() == ("h"@, TIER_FIVE_HOUR@));
            assert(wanted.last() == ("w"@, TIER_SEVEN_DAY@));
            assert(parts_view(Seq::<(&'static str, u64)>::empty()) =~= Seq::<(Seq<char>, u64)>::empty());
        }
    }
    proof {
        reveal_with_fuel(pick_parts, 4);
    }
    assert(parts_view(parts@) == pick_parts(wanted, tv));
    if parts.len() == 0 {
        return None;
    }
    let values = part_values_of(&parts);
    let worst = bits_fold_max(&values);
    if !bits_is_finite(worst) {
        return None;
    }
    Some(format_usage_parts(&parts))
}

// ---------------------------------------------------------------------------
// Usage-script summary
// ---------------------------------------------------------------------------

/// One usage entry reported by a usage script: its plan name and its
/// utilization percent (`used / total * 100`, by its `f64` bit pattern) when
/// the entry has a positive total.
#[derive(Debug)]
pub struct UsagePercent {
    pub plan_name: Option<String>,
    pub percent_bits: Option<u64>,
}

/// Plan name and percent of each entry.
pub open spec fn usage_view(data: Seq<UsagePercent>) -> Seq<(Option<Seq<char>>, Option<u64>)> {
    data.map_values(|d: UsagePercent| (opt_view(d.plan_name), d.percent_bits))
}

/// The first entry whose plan name is `name`.
pub open spec fn find_plan(data: Seq<(Option<Seq<char>>, Option<u64>)>, name: Seq<char>) -> Option<
    (Option<Seq<char>>, Option<u64>),
>
    decreases data.len(),
{
    if data.len() == 0 {
        None
    } else if data[0].0 == Some(name) {
        Some(data[0])
    } else {
        find_plan(data.drop_first(), name)
    }
}

/// The token-plan parts: for the five-hour and weekly tiers, in that order,
/// the first entry with that plan name, when its percent is known.
pub open spec fn token_plan_parts(data: Seq<(Option<Seq<char>>, Option<u64>)>) -> Seq<
    (Seq<char>, u64),
> {
    let first = match find_plan(data, TIER_FIVE_HOUR@) {
        Some(d) => match d.1 {
            Some(u) => seq![("h"@, u)],
            None => Seq::empty(),
        },
        None => Seq::empty(),
    };
    match find_plan(data, TIER_WEEKLY_LIMIT@) {
        Some(d) => match d.1 {
            Some(u) => first.push(("w"@, u)),
            None => first,
        },
        None => first,
    }
}

/// The summary of a usage-script result.
pub open spec fn script_summary(success: bool, data: Seq<(Option<Seq<char>>, Option<u64>)>) -> Option<
    Seq<char>,
> {
    if !success || data.len() == 0 {
        None
    } else if token_plan_parts(data).len() > 0 {
        Some(render_parts(token_plan_parts(data)))
    } else {
        match data[0].1 {
            None => None,
            Some(u) => {
                let plan = match data[0].0 {
                    Some(p) => p,
                    None => Seq::empty(),
                };
                let pct = dec_int(round_to_i64(u)) + "%"@;
                if plan.len() == 0 {
                    Some(emoji_for_bits(u) + " "@ + pct)
                } else {
                    Some(emoji_for_bits(u) + " "@ + plan + " "@ + pct)
                }
            },
        }
    }
}

fn find_plan_exec(data: &Vec<UsagePercent>, name: &str) -> (r: Option<usize>)
    ensures
        match r {
            Some(i) => i < data.len() && find_plan(usage_view(data@), name@) == Some(
                usage_view(data@)[i as int],
            ),
            None => find_plan(usage_view(data@), name@) is None,
        },
{
    let ghost dv = usage_view(data@);
    let mut i: usize = 0;
    assert(dv.subrange(0, dv.len() as int) =~= dv);
    while i < data.len()
        invariant
            i <= data.len(),
            dv == usage_view(data@),
            find_plan(dv, name@) == find_plan(dv.subrange(i as int, dv.len() as int), name@),
        decreases data.len() - i,
    {
        let ghost rest = dv.subrange(i as int, dv.len() as int);
        assert(rest.drop_first() =~= dv.subrange(i + 1, dv.len() as int));
        match &data[i].plan_name {
            Some(p) => {
                if str_eq(p.as_str(), name) {
                    return Some(i);
                }
            },
            None => {},
        }
        i = i + 1;
    }
    None
}

/// The short summary of a usage-script result: the five-hour / weekly token
/// plan parts when present ("🟠 h12% w80%"), otherwise the first entry's
/// plan name and percent ("🟢 Copilot Pro 40%", or "🟢 15%" without a
/// plan name); `None` for a failed or empty result, or when the first entry
/// has no percent.
pub fn summarize_usage_script(success: bool, data: &Vec<UsagePercent>) -> (r: Option<String>)
    ensures
        opt_view(r) == script_summary(success, usage_view(data@)),
{
    if !success || data.len() == 0 {
        return None;
    }
    let ghost dv = usage_view(data@);
    let mut parts: Vec<(&'static str, u64)> = Vec::new();
    match find_plan_exec(data, TIER_FIVE_HOUR) {
        Some(i) => match data[i].percent_bits {
            Some(u) => {
                parts.push(("h", u));
            },
            None => {},
        },
        None => {},
    }
    match find_plan_exec(data, TIER_WEEKLY_LIMIT) {
        Some(i) => match data[i].percent_bits {
            Some(u) => {
                parts.push(("w", u));
            },
            None => {},
        },
        None => {},
    }
    assert(parts_view(parts@) =~= token_plan_parts(dv));
    if parts.len() > 0 {
        return Some(format_usage_parts(&parts));
    }
    let first = &data[0];
    match first.percent_bits {
        None => None,
        Some(u) => {
            let emoji = emoji_for_utilization(u);
            let pct = i64_to_decimal(bits_round_to_i64(u));
            let mut s = owned(emoji);
            s.append(" ");
            match &first.plan_name {
                Some(p) => {
                    if p.as_str().unicode_len() > 0 {
                        s.append(p.as_str());
                        s.append(" ");
                    }
                },
                None => {},
            }
            s.append(pct.as_str());
            s.append("%");
            Some(s)
        },
    }
}

// ---------------------------------------------------------------------------
// Compact token counts
// ---------------------------------------------------------------------------

/// How a token count is shown in the status bar.
#[derive(Debug)]
pub enum CompactScale {
    /// Below a thousand: the count itself.
    Plain,
    /// Divided by `divisor` and suffixed with `unit`; `whole` when the
    /// quotient is at least 100 (no decimal place is shown then).
    Scaled { unit: &'static str, divisor: u64, whole: bool },
}

/// The scale for a count: "B" from 10^9, "M" from 10^6, "K" from 10^3.
pub open spec fn compact_scale(tokens: u64) -> (Seq<char>, int, bool) {
    if tokens >= 1_000_000_000 {
        ("B"@, 1_000_000_000, tokens >= 100_000_000_000)
    } else if tokens >= 1_000_000 {
        ("M"@, 1_000_000, tokens >= 100_000_000)
    } else {
        ("K"@, 1_000, tokens >= 100_000)
    }
}

/// Chooses the unit of a compact token count.
pub fn compact_token_scale(tokens: u64) -> (s: CompactScale)
    ensures
        tokens < 1000 <==> s is Plain,
        s matches CompactScale::Scaled { unit, divisor, whole } ==> (unit@, divisor as int, whole)
            == compact_scale(tokens),
{
    if tokens < 1000 {
        CompactScale::Plain
    } else if tokens >= 1_000_000_000 {
        CompactScale::Scaled { unit: "B", divisor: 1_000_000_000, whole: tokens >= 100_000_000_000 }
    } else if tokens >= 1_000_000 {
        CompactScale::Scaled { unit: "M", divisor: 1_000_000, whole: tokens >= 100_000_000 }
    } else {
        CompactScale::Scaled { unit: "K", divisor: 1_000, whole: tokens >= 100_000 }
    }
}

// ---------------------------------------------------------------------------
// Menu events and labels
// ---------------------------------------------------------------------------

/// What a tray menu event asks for.
#[derive(Debug, Clone, Copy, PartialEq, Eq, Structural)]
pub enum TrayMenuAction {
    /// Show (and focus) the main window.
    ShowMain,
    /// Quit the app.
    Quit,
    /// An event the tray does not handle.
    Unhandled,
}

/// The action of a tray menu event id: "show_main" and "quit" are handled.
pub fn tray_menu_action(event_id: &str) -> (a: TrayMenuAction)
    ensures
        event_id@ == "show_main"@ ==> a == TrayMenuAction::ShowMain,
        event_id@ == "quit"@ ==> a == TrayMenuAction::Quit,
        event_id@ != "show_main"@ && event_id@ != "quit"@ ==> a == TrayMenuAction::Unhandled,
{
    proof {
        reveal_strlit("show_main");
        reveal_strlit("quit");
        assert("quit"@.len() != "show_main"@.len());
    }
    if str_eq(event_id, "show_main") {
        TrayMenuAction::ShowMain
    } else if str_eq(event_id, "quit") {
        TrayMenuAction::Quit
    } else {
        TrayMenuAction::Unhandled
    }
}

/// The tray tooltip for today's compact token count.
pub fn usage_tooltip(short: &str) -> (s: String)
    ensures
        s@ == "Token Use · Today "@ + short@ + " tokens"@,
{
    let mut s = owned("Token Use · Today ");
    s.append(short);
    s.append(" tokens");
    s
}

/// A section's title: "{header} · {provider}{suffix}".
pub fn section_label(header: &str, provider_name: &str, suffix: &str) -> (s: String)
    ensures
        s@ == header@ + " · "@ + provider_name@ + suffix@,
{
    let mut s = owned(header);
    s.append(" · ");
    s.append(provider_name);
    s.append(suffix);
    s
}

/// The usage suffix of a section and whether the cached script result is to
/// be dropped.
#[derive(Debug)]
pub struct UsageSuffix {
    pub suffix: Option<String>,
    pub invalidate_script_cache: bool,
}

/// The usage suffix: the cached script summary when the provider's usage
/// script is enabled, otherwise (for official providers) the cached
/// subscription summary, each as " · {summary}"; a disabled script's cached
/// result is dropped.
pub open spec fn usage_suffix_spec(
    script_enabled: bool,
    script_summary: Option<Seq<char>>,
    category: Option<Seq<char>>,
    subscription_summary: Option<Seq<char>>,
) -> (Option<Seq<char>>, bool) {
    if script_enabled && script_summary is Some {
        (Some(" · "@ + script_summary->0), false)
    } else if category == Some("official"@) && subscription_summary is Some {
        (Some(" · "@ + subscription_summary->0), !script_enabled)
    } else {
        (None, !script_enabled)
    }
}

/// Chooses the usage suffix of a tray section from the cached summaries.
pub fn format_usage_suffix(
    script_enabled: bool,
    script_summary: Option<String>,
    category: Option<&str>,
    subscription_summary: Option<String>,
) -> (r: UsageSuffix)
    ensures
        (opt_view(r.suffix), r.invalidate_script_cache) == usage_suffix_spec(
            script_enabled,
            opt_view(script_summary),
            crate::store::opt_str_view(category),
            opt_view(subscription_summary),
        ),
{
    if script_enabled {
        match script_summary {
            Some(s) => {
                let mut t = owned(" · ");
                t.append(s.as_str());
                return UsageSuffix { suffix: Some(t), invalidate_script_cache: false };
            },
            None => {},
        }
    }
    let invalidate = !script_enabled;
    let official = match category {
        Some(c) => str_eq(c, "official"),
        None => false,
    };
    if official {
        match subscription_summary {
            Some(s) => {
                let mut t = owned(" · ");
                t.append(s.as_str());
                return UsageSuffix { suffix: Some(t), invalidate_script_cache: invalidate };
            },
            None => {},
        }
    }
    UsageSuffix { suffix: None, invalidate_script_cache: invalidate }
}

} // verus!
