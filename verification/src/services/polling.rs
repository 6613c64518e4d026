//! Polling configuration and the parsing of its stored settings.
//!
//! Durations are milliseconds.

use vstd::prelude::*;
use crate::text::{ascii_lower_seq, parse_unsigned, parse_unsigned_spec, str_eq, to_ascii_lowercase, trim, trim_seq};

verus! {

pub const KEY_AUTO_RECENT_MATCH_ENABLED: &'static str = "auto_recent_match_enabled";
pub const KEY_RUNNING_PROCESS_CHECK_INTERVAL_SECONDS: &'static str = "running_process_check_interval_seconds";
pub const KEY_NOT_RUNNING_PROCESS_CHECK_INTERVAL_SECONDS: &'static str = "not_running_process_check_interval_seconds";
pub const KEY_RUNNING_RECENT_MATCH_INTERVAL_SECONDS: &'static str = "running_recent_match_interval_seconds";
pub const KEY_COOLDOWN_POLLING_INTERVAL_SECONDS: &'static str = "cooldown_polling_interval_seconds";
pub const KEY_COOLDOWN_WINDOW_MINUTES: &'static str = "cooldown_window_minutes";
pub const KEY_RECENT_MATCH_RETRY_DELAY_SECONDS: &'static str = "recent_match_retry_delay_seconds";
pub const KEY_RECENT_MATCH_RETRY_LIMIT: &'static str = "recent_match_retry_limit";

/// How the scheduler decides when to look for recent matches.
#[derive(Debug, Clone, Copy, PartialEq, Eq, Structural)]
pub enum PollingMode {
    /// Follow the game process: check while it runs and during the cooldown after it exits.
    Game,
    /// Never check on its own.
    Manual,
    /// Check at a fixed interval whether or not the game runs.
    Auto,
}

#[derive(Debug, Clone, Copy)]
pub struct PollingConfig {
    pub polling_mode: PollingMode,
    pub auto_recent_match_enabled: bool,
    pub running_process_check_interval: u64,
    pub not_running_process_check_interval: u64,
    pub running_recent_match_interval: u64,
    pub cooldown_polling_interval: u64,
    pub cooldown_window: u64,
    pub recent_match_retry_delay: u64,
    pub recent_match_retry_limit: u64,
}

impl Default for PollingConfig {
    fn default() -> (res: Self)
        ensures
            res.polling_mode == PollingMode::Game,
            res.auto_recent_match_enabled,
            res.running_process_check_interval == 5_000,
            res.not_running_process_check_interval == 30_000,
            res.running_recent_match_interval == 30_000,
            res.cooldown_polling_interval == 120_000,
            res.cooldown_window == 2_400_000,
            res.recent_match_retry_delay == 15_000,
            res.recent_match_retry_limit == 2,
    {
        PollingConfig {
            polling_mode: PollingMode::Game,
            auto_recent_match_enabled: true,
            running_process_check_interval: 5_000,
            not_running_process_check_interval: 30_000,
            running_recent_match_interval: 30_000,
            cooldown_polling_interval: 120_000,
            cooldown_window: 2_400_000,
            recent_match_retry_delay: 15_000,
            recent_match_retry_limit: 2,
        }
    }
}

/// How a stored flag reads: `1`, `true`, `yes`, `on` are true; `0`, `false`, `no`, `off` are
/// false (ignoring case and surrounding whitespace); anything else is the default.
pub open spec fn setting_bool_spec(value: Seq<char>, default_value: bool) -> bool {
    let n = ascii_lower_seq(trim_seq(value));
    if n == "1"@ || n == "true"@ || n == "yes"@ || n == "on"@ {
        true
    } else if n == "0"@ || n == "false"@ || n == "no"@ || n == "off"@ {
        false
    } else {
        default_value
    }
}

pub open spec fn clamp_spec(x: u64, min_value: u64, max_value: u64) -> u64 {
    if x < min_value {
        min_value
    } else if x > max_value {
        max_value
    } else {
        x
    }
}

/// How a stored number reads: the trimmed text as a `u64`, else the default, clamped.
pub open spec fn setting_u64_spec(value: Seq<char>, default_value: u64, min_value: u64, max_value: u64) -> u64 {
    let parsed = match parse_unsigned_spec(trim_seq(value), u64::MAX as int) {
        Some(v) => v as u64,
        None => default_value,
    };
    clamp_spec(parsed, min_value, max_value)
}

/// A stored flag (see `setting_bool_spec`).
pub fn setting_bool(value: &str, default_value: bool) -> (res: bool)
    ensures
        res == setting_bool_spec(value@, default_value),
{
    let t = trim(value);
    let normalized = to_ascii_lowercase(t.as_str());
    let n = normalized.as_str();
    if str_eq(n, "1") || str_eq(n, "true") || str_eq(n, "yes") || str_eq(n, "on") {
        true
    } else if str_eq(n, "0") || str_eq(n, "false") || str_eq(n, "no") || str_eq(n, "off") {
        false
    } else {
        default_value
    }
}

/// A stored number (see `setting_u64_spec`).
pub fn setting_u64_in_range(value: &str, default_value: u64, min_value: u64, max_value: u64) -> (res: u64)
    requires
        min_value <= max_value,
    ensures
        res == setting_u64_spec(value@, default_value, min_value, max_value),
        min_value <= res <= max_value,
{
    let t = trim(value);
    let parsed = match parse_unsigned(t.as_str(), u64::MAX) {
        Some(v) => v,
        None => default_value,
    };
    if parsed < min_value {
        min_value
    } else if parsed > max_value {
        max_value
    } else {
        parsed
    }
}

/// The stored texts of the polling settings (each the stored value, or the default's text
/// when nothing is stored).
pub struct PollingSettingValues {
    pub auto_recent_match_enabled: String,
    pub running_process_check_interval_seconds: String,
    pub not_running_process_check_interval_seconds: String,
    pub running_recent_match_interval_seconds: String,
    pub cooldown_polling_interval_seconds: String,
    pub cooldown_window_minutes: String,
    pub recent_match_retry_delay_seconds: String,
    pub recent_match_retry_limit: String,
}

/// The polling configuration the stored settings describe: each number falls back to its
/// default when unreadable and is clamped to its range, in seconds (the cooldown window in
/// minutes): process check while running 1..=300 (default 5), while not running 3..=900
/// (30), recent-match interval 10..=900 (30), cooldown polling 10..=1200 (120), cooldown
/// window 1..=180 minutes (40), retry delay 1..=300 (15), retry limit 0..=10 (2).
pub fn polling_config_from_settings(values: &PollingSettingValues) -> (res: PollingConfig)
    ensures
        res.polling_mode == PollingMode::Game,
        res.auto_recent_match_enabled == setting_bool_spec(values.auto_recent_match_enabled@, true),
        res.running_process_check_interval
            == setting_u64_spec(values.running_process_check_interval_seconds@, 5, 1, 300) * 1000,
        res.not_running_process_check_interval
            == setting_u64_spec(values.not_running_process_check_interval_seconds@, 30, 3, 900) * 1000,
        res.running_recent_match_interval
            == setting_u64_spec(values.running_recent_match_interval_seconds@, 30, 10, 900) * 1000,
        res.cooldown_polling_interval
            == setting_u64_spec(values.cooldown_polling_interval_seconds@, 120, 10, 1200) * 1000,
        res.cooldown_window == setting_u64_spec(values.cooldown_window_minutes@, 40, 1, 180) * 60_000,
        res.recent_match_retry_delay
            == setting_u64_spec(values.recent_match_retry_delay_seconds@, 15, 1, 300) * 1000,
        res.recent_match_retry_limit == setting_u64_spec(values.recent_match_retry_limit@, 2, 0, 10),
{
    let running = setting_u64_in_range(values.running_process_check_interval_seconds.as_str(), 5, 1, 300);
    let not_running = setting_u64_in_range(values.not_running_process_check_interval_seconds.as_str(), 30, 3, 900);
    let recent = setting_u64_in_range(values.running_recent_match_interval_seconds.as_str(), 30, 10, 900);
    let cooldown_polling = setting_u64_in_range(values.cooldown_polling_interval_seconds.as_str(), 120, 10, 1200);
    let window_minutes = setting_u64_in_range(values.cooldown_window_minutes.as_str(), 40, 1, 180);
    let retry_delay = setting_u64_in_range(values.recent_match_retry_delay_seconds.as_str(), 15, 1, 300);
    let retry_limit = setting_u64_in_range(values.recent_match_retry_limit.as_str(), 2, 0, 10);
    PollingConfig {
        polling_mode: PollingMode::Game,
        auto_recent_match_enabled: setting_bool(values.auto_recent_match_enabled.as_str(), true),
        running_process_check_interval: running * 1000,
        not_running_process_check_interval: not_running * 1000,
        running_recent_match_interval: recent * 1000,
        cooldown_polling_interval: cooldown_polling * 1000,
        cooldown_window: window_minutes * 60_000,
        recent_match_retry_delay: retry_delay * 1000,
        recent_match_retry_limit: retry_limit,
    }
}

} // verus!
