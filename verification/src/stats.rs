//! The persistent totals: AFK time, mining clicks and gym cycles.
use vstd::prelude::*;
use crate::state::{AutomationState, AutomationStatus, Stats};

verus! {

broadcast use vstd::string::group_string_axioms;

/// The seconds since the Unix epoch (reading the date as UTC) of the date and
/// time that chrono's `NaiveDateTime::parse_from_str` reads from `text` under
/// `format`, or `None` when it reads none.
pub uninterp spec fn parsed_timestamp(text: Seq<char>, format: Seq<char>) -> Option<int>;

/// Calls `chrono::NaiveDateTime::parse_from_str(text, format)` and takes the
/// parsed date-time's timestamp (`and_utc().timestamp()`); the result is named
/// `parsed_timestamp` of the two texts.
#[verifier::external_body]
fn parse_timestamp(text: &str, format: &str) -> (r: Option<i64>)
    ensures
        r matches Some(t) ==> parsed_timestamp(text@, format@) == Some(t as int),
        r is None ==> parsed_timestamp(text@, format@) is None,
{
    chrono::NaiveDateTime::parse_from_str(text, format).ok().map(|d| d.and_utc().timestamp())
}

/// How the AFK start and crash times are written: `%Y-%m-%d %H:%M:%S`.
pub open spec fn time_format() -> Seq<char> {
    "%Y-%m-%d %H:%M:%S"@
}

/// Seconds elapsed from a recorded start time to `now` (local clock, whole
/// seconds since the epoch), never negative; `None` when the start time does
/// not read as a date.
pub open spec fn elapsed_since(start: Seq<char>, now: i64) -> Option<int> {
    match parsed_timestamp(start, time_format()) {
        Some(t) => Some(if now - t > 0 { now - t } else { 0 }),
        None => None,
    }
}

/// Seconds since a start time written as `%Y-%m-%d %H:%M:%S`, at least 0.
pub fn afk_elapsed_seconds(start: &str, now: i64) -> (r: Option<u64>)
    ensures
        r matches Some(e) ==> elapsed_since(start@, now) == Some(e as int),
        r is None ==> elapsed_since(start@, now) is None,
{
    let fmt = "%Y-%m-%d %H:%M:%S";
    match parse_timestamp(start, fmt) {
        Some(t) => {
            let d: i128 = now as i128 - t as i128;
            if d > 0 {
                Some(d as u64)
            } else {
                Some(0)
            }
        },
        None => None,
    }
}

/// What saving the AFK time of a session did.
#[derive(Clone, Copy, Debug, PartialEq, Eq, Structural)]
pub enum AfkSave {
    /// The session never reached AFK mode (or its start time is missing or
    /// unreadable, or no time has passed): the totals are unchanged.
    Nothing,
    /// This many seconds were added to the AFK total, which is to be saved.
    Added(u64),
    /// The total cannot hold that many more seconds: it is left unchanged.
    Overflow,
}

/// The seconds a finished session adds to the AFK total, when it adds any.
pub open spec fn session_afk_seconds(status: AutomationStatus, now: i64) -> Option<int> {
    if !status.session_treated {
        None
    } else {
        match status.afk_start_time {
            None => None,
            Some(start) => match elapsed_since(start@, now) {
                Some(e) => if e > 0 {
                    Some(e)
                } else {
                    None
                },
                None => None,
            },
        }
    }
}

/// Adds the time spent in AFK mode by the current session to the persistent
/// totals: only when the session reached AFK mode and its start time reads as
/// a date, and only a positive number of seconds.
pub fn record_afk_elapsed(stats: &mut Stats, status: &AutomationStatus, now: i64) -> (r: AfkSave)
    ensures
        final(stats).total_muscu_cycles == old(stats).total_muscu_cycles,
        final(stats).total_mining_clicks == old(stats).total_mining_clicks,
        match session_afk_seconds(*status, now) {
            None => r == AfkSave::Nothing && final(stats).total_afk_seconds == old(stats).total_afk_seconds,
            Some(e) => if old(stats).total_afk_seconds + e <= u64::MAX {
                r == AfkSave::Added(e as u64) && final(stats).total_afk_seconds == old(stats).total_afk_seconds + e
            } else {
                r == AfkSave::Overflow && final(stats).total_afk_seconds == old(stats).total_afk_seconds
            },
        },
{
    if !status.session_treated {
        return AfkSave::Nothing;
    }
    match &status.afk_start_time {
        None => AfkSave::Nothing,
        Some(start) => match afk_elapsed_seconds(start.as_str(), now) {
            None => AfkSave::Nothing,
            Some(e) => {
                if e == 0 {
                    AfkSave::Nothing
                } else if e <= u64::MAX - stats.total_afk_seconds {
                    stats.total_afk_seconds = stats.total_afk_seconds + e;
                    AfkSave::Added(e)
                } else {
                    AfkSave::Overflow
                }
            },
        },
    }
}

/// The seconds of the AFK session under way, when the automation is running
/// and in AFK mode and its start time reads as a date.
pub open spec fn live_afk_seconds(status: AutomationStatus, now: i64) -> Option<int> {
    if status.running && status.state == AutomationState::AfkActive {
        match status.afk_start_time {
            None => None,
            Some(start) => elapsed_since(start@, now),
        }
    } else {
        None
    }
}

/// The totals as shown to the user: the saved totals plus, while an AFK session
/// is under way, the seconds it has lasted so far.
pub fn stats_with_live_afk(stats: &Stats, status: &AutomationStatus, now: i64) -> (r: Stats)
    requires
        live_afk_seconds(*status, now) matches Some(e) ==> stats.total_afk_seconds + e <= u64::MAX,
    ensures
        r.total_muscu_cycles == stats.total_muscu_cycles,
        r.total_mining_clicks == stats.total_mining_clicks,
        r.total_afk_seconds == match live_afk_seconds(*status, now) {
            Some(e) => stats.total_afk_seconds + e,
            None => stats.total_afk_seconds as int,
        },
{
    let mut s = *stats;
    if status.running && status.state == AutomationState::AfkActive {
        if let Some(start) = &status.afk_start_time {
            if let Some(e) = afk_elapsed_seconds(start.as_str(), now) {
                s.total_afk_seconds = s.total_afk_seconds + e;
            }
        }
    }
    s
}

/// While an AFK session runs, the totals shown already count it: saving the
/// session at that moment adds exactly the seconds shown live (nothing when
/// none have passed or the start time does not read as a date).
pub proof fn live_afk_time_is_what_saving_adds(status: AutomationStatus, now: i64)
    requires
        status.running,
        status.state == AutomationState::AfkActive,
        status.session_treated,
    ensures
        match live_afk_seconds(status, now) {
            Some(e) => if e > 0 {
                session_afk_seconds(status, now) == Some(e)
            } else {
                session_afk_seconds(status, now) is None
            },
            None => session_afk_seconds(status, now) is None,
        },
{
}

/// The totals as shown to the user (see `stats_with_live_afk`), or `None` when
/// the AFK total cannot hold the seconds of the session under way.
pub fn get_stats(stats: &Stats, status: &AutomationStatus, now: i64) -> (r: Option<Stats>)
    ensures
        r is None <==> (live_afk_seconds(*status, now) matches Some(e) && stats.total_afk_seconds + e
            > u64::MAX),
        r matches Some(v) ==> {
            &&& v.total_muscu_cycles == stats.total_muscu_cycles
            &&& v.total_mining_clicks == stats.total_mining_clicks
            &&& v.total_afk_seconds == match live_afk_seconds(*status, now) {
                Some(e) => stats.total_afk_seconds + e,
                None => stats.total_afk_seconds as int,
            }
        },
{
    if status.running && status.state == AutomationState::AfkActive {
        if let Some(start) = &status.afk_start_time {
            if let Some(e) = afk_elapsed_seconds(start.as_str(), now) {
                if e > u64::MAX - stats.total_afk_seconds {
                    return None;
                }
            }
        }
    }
    Some(stats_with_live_afk(stats, status, now))
}

/// Counts one more click of the mining bot.
pub fn record_mining_click(stats: &mut Stats)
    requires
        old(stats).total_mining_clicks < u64::MAX,
    ensures
        final(stats).total_mining_clicks == old(stats).total_mining_clicks + 1,
        final(stats).total_muscu_cycles == old(stats).total_muscu_cycles,
        final(stats).total_afk_seconds == old(stats).total_afk_seconds,
{
    stats.total_mining_clicks = stats.total_mining_clicks + 1;
}

/// Counts one more exercise cycle of the gym bot.
pub fn record_muscu_cycle(stats: &mut Stats)
    requires
        old(stats).total_muscu_cycles < u64::MAX,
    ensures
        final(stats).total_muscu_cycles == old(stats).total_muscu_cycles + 1,
        final(stats).total_mining_clicks == old(stats).total_mining_clicks,
        final(stats).total_afk_seconds == old(stats).total_afk_seconds,
{
    stats.total_muscu_cycles = stats.total_muscu_cycles + 1;
}

/// Clears all totals.
pub fn reset_stats(stats: &mut Stats)
    ensures
        final(stats).total_muscu_cycles == 0,
        final(stats).total_mining_clicks == 0,
        final(stats).total_afk_seconds == 0,
{
    *stats = Stats::default();
}

/// The AFK time of a session is the time from its recorded start, written
/// `%Y-%m-%d %H:%M:%S`, to now, never negative: zero when the start lies
/// ahead, and nothing when the start does not read as a date.
pub proof fn afk_time_from_recorded_start(start: Seq<char>, now: i64)
    ensures
        parsed_timestamp(start, "%Y-%m-%d %H:%M:%S"@) matches Some(t) ==> elapsed_since(start, now) == Some(
            if now >= t { now - t } else { 0 },
        ),
        parsed_timestamp(start, "%Y-%m-%d %H:%M:%S"@) is None ==> elapsed_since(start, now) is None,
{
}

} // verus!
