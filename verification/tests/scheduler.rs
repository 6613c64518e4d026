use pubg_point_rankings::runtime::game_state::{GameProcessRuntime, GameProcessState};
use pubg_point_rankings::runtime::scheduler::{
    process_check_interval, recent_match_check_cadence, should_check_recent_matches, tick_once,
};
use pubg_point_rankings::services::polling::{PollingConfig, PollingMode};

// Times are milliseconds since the Unix epoch; durations are milliseconds.

#[test]
fn uses_expected_cadence_per_state() {
    let config = PollingConfig::default();
    assert_eq!(process_check_interval(GameProcessState::Running, &config), 5_000);
    assert_eq!(process_check_interval(GameProcessState::CooldownPolling, &config), 120_000);
    assert_eq!(process_check_interval(GameProcessState::NotRunning, &config), 30_000);

    assert_eq!(recent_match_check_cadence(GameProcessState::Running, &config), 30_000);
    assert_eq!(recent_match_check_cadence(GameProcessState::CooldownPolling, &config), 120_000);
    assert_eq!(recent_match_check_cadence(GameProcessState::NotRunning, &config), 30_000);

    assert!(should_check_recent_matches(GameProcessState::Running));
    assert!(should_check_recent_matches(GameProcessState::CooldownPolling));
    assert!(!should_check_recent_matches(GameProcessState::NotRunning));
}

#[test]
fn triggers_recent_match_check_when_no_previous_check_exists() {
    let config = PollingConfig::default();
    let mut runtime = GameProcessRuntime::default();
    let now = 100_000u64;

    let warm_up = tick_once(&mut runtime, true, now, &config);
    assert_eq!(runtime.state, GameProcessState::Running);
    assert!(warm_up.should_trigger_recent_match_check);

    let next_check = now + 31_000;
    let result = tick_once(&mut runtime, true, next_check, &config);

    assert!(result.should_trigger_recent_match_check);
    assert_eq!(runtime.last_recent_match_check_at, Some(next_check));
}

#[test]
fn does_not_trigger_recent_match_check_when_game_is_not_running() {
    let config = PollingConfig::default();
    let mut runtime = GameProcessRuntime::default();
    let now = 100_000u64;

    let result = tick_once(&mut runtime, false, now, &config);

    assert_eq!(runtime.state, GameProcessState::NotRunning);
    assert!(!result.should_trigger_recent_match_check);
    assert_eq!(runtime.last_recent_match_check_at, None);
}

#[test]
fn manual_mode_never_triggers_recent_match_check() {
    let mut config = PollingConfig::default();
    config.polling_mode = PollingMode::Manual;

    let mut runtime = GameProcessRuntime::default();
    let now = 100_000u64;
    let result = tick_once(&mut runtime, true, now, &config);

    assert!(!result.should_trigger_recent_match_check);
}

#[test]
fn auto_mode_triggers_even_when_process_is_not_running() {
    let mut config = PollingConfig::default();
    config.polling_mode = PollingMode::Auto;

    let mut runtime = GameProcessRuntime::default();
    let now = 100_000u64;
    let result = tick_once(&mut runtime, false, now, &config);

    assert!(result.should_trigger_recent_match_check);
    assert_eq!(result.sleep_for, config.running_recent_match_interval);
}

#[test]
fn keeps_cooldown_state_before_expiry_and_reverts_after_expiry() {
    let config = PollingConfig::default();
    let base_time = 100_000u64;
    let mut runtime = GameProcessRuntime::default();

    tick_once(&mut runtime, true, base_time, &config);
    assert_eq!(runtime.state, GameProcessState::Running);

    let cooldown_started = base_time + 5_000;
    tick_once(&mut runtime, false, cooldown_started, &config);
    assert_eq!(runtime.state, GameProcessState::CooldownPolling);

    let before_expiry = cooldown_started + 39 * 60 * 1_000;
    tick_once(&mut runtime, false, before_expiry, &config);
    assert_eq!(runtime.state, GameProcessState::CooldownPolling);

    let after_expiry = cooldown_started + 40 * 60 * 1_000;
    let result = tick_once(&mut runtime, false, after_expiry, &config);
    assert_eq!(runtime.state, GameProcessState::NotRunning);
    assert_eq!(result.sleep_for, 30_000);
}

#[test]
fn a_check_is_not_triggered_twice_within_the_cadence() {
    let config = PollingConfig::default();
    let mut runtime = GameProcessRuntime::default();
    let first = tick_once(&mut runtime, true, 100_000, &config);
    assert!(first.should_trigger_recent_match_check);
    let second = tick_once(&mut runtime, true, 110_000, &config);
    assert!(!second.should_trigger_recent_match_check);
    assert_eq!(second.sleep_for, 5_000);
}
