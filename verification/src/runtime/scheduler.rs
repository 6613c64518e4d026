//! One tick of the background scheduler: observe the game process, decide whether to look
//! for recent matches, and decide how long to sleep.

use vstd::prelude::*;
use crate::runtime::game_state::{check_due, observed, GameProcessRuntime, GameProcessState};
use crate::services::polling::{PollingConfig, PollingMode};

verus! {

#[derive(Debug, Clone, Copy)]
pub struct SchedulerTickResult {
    /// Milliseconds to sleep before the next tick.
    pub sleep_for: u64,
    pub should_trigger_recent_match_check: bool,
}

pub open spec fn check_interval_spec(state: GameProcessState, config: PollingConfig) -> u64 {
    match state {
        GameProcessState::Running => config.running_process_check_interval,
        GameProcessState::CooldownPolling => config.cooldown_polling_interval,
        GameProcessState::NotRunning => config.not_running_process_check_interval,
    }
}

pub open spec fn cadence_spec(state: GameProcessState, config: PollingConfig) -> u64 {
    match state {
        GameProcessState::Running => config.running_recent_match_interval,
        GameProcessState::CooldownPolling => config.cooldown_polling_interval,
        GameProcessState::NotRunning => config.not_running_process_check_interval,
    }
}

/// The runtime and result of one tick.
///
/// Game mode: observe the process; check for recent matches when the game runs or cools down
/// and the state's cadence has elapsed; sleep for the state's process-check interval.
/// Manual mode: observe the process, never check, same sleep. Auto mode: do not observe;
/// check when the recent-match interval has elapsed and sleep for that interval. A check
/// marks its time.
pub open spec fn tick_spec(r: GameProcessRuntime, is_running: bool, now: u64, config: PollingConfig) -> (GameProcessRuntime, SchedulerTickResult) {
    match config.polling_mode {
        PollingMode::Game => {
            let r1 = observed(r, is_running, now, config.cooldown_window);
            let trigger = r1.state != GameProcessState::NotRunning && check_due(r1, now, cadence_spec(r1.state, config));
            let r2 = if trigger {
                GameProcessRuntime { last_recent_match_check_at: Some(now), ..r1 }
            } else {
                r1
            };
            (r2, SchedulerTickResult { sleep_for: check_interval_spec(r2.state, config), should_trigger_recent_match_check: trigger })
        },
        PollingMode::Manual => {
            let r1 = observed(r, is_running, now, config.cooldown_window);
            (r1, SchedulerTickResult { sleep_for: check_interval_spec(r1.state, config), should_trigger_recent_match_check: false })
        },
        PollingMode::Auto => {
            let trigger = check_due(r, now, config.running_recent_match_interval);
            let r2 = if trigger {
                GameProcessRuntime { last_recent_match_check_at: Some(now), ..r }
            } else {
                r
            };
            (r2, SchedulerTickResult { sleep_for: config.running_recent_match_interval, should_trigger_recent_match_check: trigger })
        },
    }
}

/// One scheduler tick (see `tick_spec`).
pub fn tick_once(runtime: &mut GameProcessRuntime, is_running: bool, now: u64, config: &PollingConfig) -> (res: SchedulerTickResult)
    ensures
        (*final(runtime), res) == tick_spec(*old(runtime), is_running, now, *config),
{
    match config.polling_mode {
        PollingMode::Game => tick_game_mode(runtime, is_running, now, config),
        PollingMode::Manual => tick_manual_mode(runtime, is_running, now, config),
        PollingMode::Auto => tick_auto_mode(runtime, now, config),
    }
}

pub fn tick_game_mode(runtime: &mut GameProcessRuntime, is_running: bool, now: u64, config: &PollingConfig) -> (res: SchedulerTickResult)
    requires
        config.polling_mode == PollingMode::Game,
    ensures
        (*final(runtime), res) == tick_spec(*old(runtime), is_running, now, *config),
{
    runtime.update_process_observation_with_cooldown(is_running, now, config.cooldown_window);
    let should_trigger_recent_match_check = should_check_recent_matches(runtime.state)
        && runtime.should_trigger_recent_match_check(now, recent_match_check_cadence(runtime.state, config));
    if should_trigger_recent_match_check {
        runtime.mark_recent_match_check(now);
    }
    SchedulerTickResult {
        sleep_for: process_check_interval(runtime.state, config),
        should_trigger_recent_match_check,
    }
}

pub fn tick_manual_mode(runtime: &mut GameProcessRuntime, is_running: bool, now: u64, config: &PollingConfig) -> (res: SchedulerTickResult)
    requires
        config.polling_mode == PollingMode::Manual,
    ensures
        (*final(runtime), res) == tick_spec(*old(runtime), is_running, now, *config),
{
    runtime.update_process_observation_with_cooldown(is_running, now, config.cooldown_window);
    SchedulerTickResult { sleep_for: process_check_interval(runtime.state, config), should_trigger_recent_match_check: false }
}

pub fn tick_auto_mode(runtime: &mut GameProcessRuntime, now: u64, config: &PollingConfig) -> (res: SchedulerTickResult)
    requires
        config.polling_mode == PollingMode::Auto,
    ensures
        (*final(runtime), res) == tick_spec(*old(runtime), false, now, *config),
{
    let should_trigger_recent_match_check = runtime.should_trigger_recent_match_check(now, config.running_recent_match_interval);
    if should_trigger_recent_match_check {
        runtime.mark_recent_match_check(now);
    }
    SchedulerTickResult { sleep_for: config.running_recent_match_interval, should_trigger_recent_match_check }
}

/// How long to sleep between process checks in a state.
pub fn process_check_interval(state: GameProcessState, config: &PollingConfig) -> (res: u64)
    ensures
        res == check_interval_spec(state, *config),
{
    match state {
        GameProcessState::Running => config.running_process_check_interval,
        GameProcessState::CooldownPolling => config.cooldown_polling_interval,
        GameProcessState::NotRunning => config.not_running_process_check_interval,
    }
}

/// How often recent matches are checked in a state.
pub fn recent_match_check_cadence(state: GameProcessState, config: &PollingConfig) -> (res: u64)
    ensures
        res == cadence_spec(state, *config),
{
    match state {
        GameProcessState::Running => config.running_recent_match_interval,
        GameProcessState::CooldownPolling => config.cooldown_polling_interval,
        GameProcessState::NotRunning => config.not_running_process_check_interval,
    }
}

/// Recent matches are checked unless the game is not running.
pub fn should_check_recent_matches(state: GameProcessState) -> (res: bool)
    ensures
        res == (state != GameProcessState::NotRunning),
{
    match state {
        GameProcessState::NotRunning => false,
        _ => true,
    }
}

/// Manual mode never checks for recent matches.
pub proof fn law_manual_mode_never_checks(r: GameProcessRuntime, is_running: bool, now: u64, config: PollingConfig)
    requires
        config.polling_mode == PollingMode::Manual,
    ensures
        !tick_spec(r, is_running, now, config).1.should_trigger_recent_match_check,
        tick_spec(r, is_running, now, config).0.last_recent_match_check_at == r.last_recent_match_check_at,
{
}

/// In game mode, a game that is not running and not seen never triggers a check.
pub proof fn law_game_mode_idle_when_not_running(r: GameProcessRuntime, now: u64, config: PollingConfig)
    requires
        config.polling_mode == PollingMode::Game,
        r.state == GameProcessState::NotRunning,
    ensures
        !tick_spec(r, false, now, config).1.should_trigger_recent_match_check,
{
}

/// A tick that triggers a check records its time as the last check; one that does not
/// leaves that time alone.
pub proof fn law_trigger_marks_check(r: GameProcessRuntime, is_running: bool, now: u64, config: PollingConfig)
    ensures
        tick_spec(r, is_running, now, config).1.should_trigger_recent_match_check
            ==> tick_spec(r, is_running, now, config).0.last_recent_match_check_at == Some(now),
        !tick_spec(r, is_running, now, config).1.should_trigger_recent_match_check
            ==> tick_spec(r, is_running, now, config).0.last_recent_match_check_at == r.last_recent_match_check_at,
{
}

/// Two ticks at the same instant never both trigger a check, unless the cadence is zero.
pub proof fn law_no_double_check(r: GameProcessRuntime, is_running: bool, now: u64, config: PollingConfig)
    requires
        config.running_recent_match_interval > 0,
        config.cooldown_polling_interval > 0,
        config.not_running_process_check_interval > 0,
    ensures
        tick_spec(r, is_running, now, config).1.should_trigger_recent_match_check
            ==> !tick_spec(tick_spec(r, is_running, now, config).0, is_running, now, config).1.should_trigger_recent_match_check,
{
}

} // verus!
