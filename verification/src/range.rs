//! The leaderboard periods.
use crate::model::AppError;
use crate::text::{concat2, str_eq};
use vstd::prelude::*;

verus! {

/// A leaderboard period.
#[derive(Debug, Clone, Copy, PartialEq, Eq, Structural)]
pub enum LeaderboardRange {
    Today,
    SevenDays,
    ThirtyDays,
}

/// The key of a period: "today", "7d" or "30d".
pub open spec fn range_key(r: LeaderboardRange) -> Seq<char> {
    match r {
        LeaderboardRange::Today => "today"@,
        LeaderboardRange::SevenDays => "7d"@,
        LeaderboardRange::ThirtyDays => "30d"@,
    }
}

/// The period whose key is `s`.
pub open spec fn range_of_key(s: Seq<char>) -> Option<LeaderboardRange> {
    if s == "today"@ {
        Some(LeaderboardRange::Today)
    } else if s == "7d"@ {
        Some(LeaderboardRange::SevenDays)
    } else if s == "30d"@ {
        Some(LeaderboardRange::ThirtyDays)
    } else {
        None
    }
}

/// The message of an unknown period key.
pub open spec fn unsupported_range_message(s: Seq<char>) -> Seq<char> {
    "不支持的排行周期: "@ + s
}

/// How many days before today a period's window starts.
pub open spec fn range_days_back(r: LeaderboardRange) -> i64 {
    match r {
        LeaderboardRange::Today => 0,
        LeaderboardRange::SevenDays => 6,
        LeaderboardRange::ThirtyDays => 29,
    }
}

impl LeaderboardRange {
    /// Parses a period key; any other text is refused as invalid input.
    pub fn parse(value: &str) -> (r: Result<LeaderboardRange, AppError>)
        ensures
            match range_of_key(value@) {
                Some(k) => r == Ok::<LeaderboardRange, AppError>(k),
                None => r matches Err(AppError::InvalidInput(m)) && m@ == unsupported_range_message(
                    value@,
                ),
            },
    {
        if str_eq(value, "today") {
            Ok(LeaderboardRange::Today)
        } else if str_eq(value, "7d") {
            Ok(LeaderboardRange::SevenDays)
        } else if str_eq(value, "30d") {
            Ok(LeaderboardRange::ThirtyDays)
        } else {
            Err(AppError::InvalidInput(concat2("不支持的排行周期: ", value)))
        }
    }

    /// The key of the period.
    pub fn as_str(self) -> (s: &'static str)
        ensures
            s@ == range_key(self),
    {
        match self {
            LeaderboardRange::Today => "today",
            LeaderboardRange::SevenDays => "7d",
            LeaderboardRange::ThirtyDays => "30d",
        }
    }

    /// How many days before today the window starts: the window runs from
    /// local midnight of that day to now.
    pub fn days_back(self) -> (d: i64)
        ensures
            d == range_days_back(self),
    {
        match self {
            LeaderboardRange::Today => 0,
            LeaderboardRange::SevenDays => 6,
            LeaderboardRange::ThirtyDays => 29,
        }
    }
}

/// What the local time zone says of a day's midnight.
#[derive(Debug, Clone, Copy, PartialEq, Eq, Structural)]
pub enum LocalMidnight {
    /// Midnight is one instant, at these Unix seconds.
    Single(i64),
    /// Midnight happens twice (a clock change): the earlier and the later.
    Ambiguous(i64, i64),
    /// Midnight is skipped by a clock change.
    Missing,
    /// The day has no start time to look up.
    NoDayStart,
}

/// Seconds in a day.
pub open spec fn day_seconds() -> int {
    86400
}

/// Where a period's window starts, for the clock reading `now` and the
/// zone's answer about midnight `days_back` days ago: that midnight (the
/// earlier one when it happens twice); a day before the same time of that
/// day when midnight is skipped; `now` when the day has no start.
pub open spec fn window_start(r: LeaderboardRange, now: i64, m: LocalMidnight) -> int {
    match m {
        LocalMidnight::Single(t) => t as int,
        LocalMidnight::Ambiguous(t, _) => t as int,
        LocalMidnight::Missing => now - (range_days_back(r) + 1) * day_seconds(),
        LocalMidnight::NoDayStart => now as int,
    }
}

/// Where today's window starts: today's midnight (the earlier one when it
/// happens twice), or `now` when there is none.
pub open spec fn today_start(now: i64, m: LocalMidnight) -> int {
    match m {
        LocalMidnight::Single(t) => t as int,
        LocalMidnight::Ambiguous(t, _) => t as int,
        _ => now as int,
    }
}

impl LeaderboardRange {
    /// The window `(start, end)` of the period at the clock reading `now`,
    /// given what the local zone says of midnight `days_back` days ago
    /// (see `window_start`); it ends at `now`.
    pub fn window_from(self, now: i64, midnight: LocalMidnight) -> (w: (i64, i64))
        requires
            now >= i64::MIN + 30 * 86400,
        ensures
            w.0 == window_start(self, now, midnight),
            w.1 == now,
    {
        let start = match midnight {
            LocalMidnight::Single(t) => t,
            LocalMidnight::Ambiguous(t, _) => t,
            LocalMidnight::Missing => now - (self.days_back() + 1) * 86400,
            LocalMidnight::NoDayStart => now,
        };
        (start, now)
    }
}

/// Today's window `(start, end)` at the clock reading `now`, given what the
/// local zone says of today's midnight (see `today_start`).
pub fn today_window_from(now: i64, midnight: LocalMidnight) -> (w: (i64, i64))
    ensures
        w.0 == today_start(now, midnight),
        w.1 == now,
{
    let start = match midnight {
        LocalMidnight::Single(t) => t,
        LocalMidnight::Ambiguous(t, _) => t,
        _ => now,
    };
    (start, now)
}

/// Every period's key parses back to that period.
pub proof fn law_range_key_round_trip(r: LeaderboardRange)
    ensures
        range_of_key(range_key(r)) == Some(r),
{
    reveal_strlit("today");
    reveal_strlit("7d");
    reveal_strlit("30d");
    assert("7d"@ != "today"@) by {
        assert("7d"@.len() != "today"@.len());
    }
    assert("30d"@ != "today"@) by {
        assert("30d"@.len() != "today"@.len());
    }
    assert("30d"@ != "7d"@) by {
        assert("30d"@.len() != "7d"@.len());
    }
}

/// A key that parses names the period it parses to.
pub proof fn law_parsed_key_is_canonical(s: Seq<char>)
    requires
        range_of_key(s) is Some,
    ensures
        range_key(range_of_key(s)->0) == s,
{
}

} // verus!
