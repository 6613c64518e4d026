use pubg_point_rankings::runtime::game_state::{GameProcessRuntime, GameProcessState};

// Times are milliseconds since the Unix epoch; durations are milliseconds.

#[test]
fn transitions_not_running_to_running_when_process_detected() {
    let base_time = 100_000u64;
    let mut runtime = GameProcessRuntime::default();

    runtime.update_process_observation(true, base_time);

    assert_eq!(runtime.state, GameProcessState::Running);
    assert_eq!(runtime.last_seen_running_at, Some(base_time));
    assert_eq!(runtime.cooldown_started_at, None);
}

#[test]
fn transitions_running_to_cooldown_when_process_disappears() {
    let base_time = 100_000u64;
    let mut runtime = GameProcessRuntime::default();
    runtime.update_process_observation(true, base_time);

    let after_exit = base_time + 5_000;
    runtime.update_process_observation(false, after_exit);

    assert_eq!(runtime.state, GameProcessState::CooldownPolling);
    assert_eq!(runtime.cooldown_started_at, Some(after_exit));
}

#[test]
fn transitions_cooldown_to_running_when_process_reappears() {
    let base_time = 100_000u64;
    let mut runtime = GameProcessRuntime::default();
    runtime.update_process_observation(true, base_time);
    runtime.update_process_observation(false, base_time + 5_000);

    let comeback_time = base_time + 15_000;
    runtime.update_process_observation(true, comeback_time);

    assert_eq!(runtime.state, GameProcessState::Running);
    assert_eq!(runtime.last_seen_running_at, Some(comeback_time));
    assert_eq!(runtime.cooldown_started_at, None);
}

#[test]
fn transitions_cooldown_to_not_running_after_cooldown_expiry() {
    let base_time = 100_000u64;
    let mut runtime = GameProcessRuntime::default();
    runtime.update_process_observation(true, base_time);

    let cooldown_started = base_time + 5_000;
    runtime.update_process_observation_with_cooldown(false, cooldown_started, 10_000);
    assert_eq!(runtime.state, GameProcessState::CooldownPolling);

    let still_cooling = cooldown_started + 9_000;
    runtime.update_process_observation_with_cooldown(false, still_cooling, 10_000);
    assert_eq!(runtime.state, GameProcessState::CooldownPolling);

    let cooldown_expired = cooldown_started + 10_000;
    runtime.update_process_observation_with_cooldown(false, cooldown_expired, 10_000);
    assert_eq!(runtime.state, GameProcessState::NotRunning);
    assert_eq!(runtime.cooldown_started_at, None);
}

#[test]
fn not_running_stays_not_running_without_the_process() {
    let mut runtime = GameProcessRuntime::default();
    runtime.update_process_observation(false, 1_000);
    assert_eq!(runtime.state, GameProcessState::NotRunning);
    assert_eq!(runtime.cooldown_started_at, None);
    assert_eq!(runtime.last_seen_running_at, None);
}

#[test]
fn recent_match_check_is_due_after_cadence_and_marking_resets_it() {
    let mut runtime = GameProcessRuntime::default();
    assert!(runtime.should_trigger_recent_match_check(1_000, 30_000));
    runtime.mark_recent_match_check(1_000);
    assert_eq!(runtime.last_recent_match_check_at, Some(1_000));
    assert!(!runtime.should_trigger_recent_match_check(30_999, 30_000));
    assert!(runtime.should_trigger_recent_match_check(31_000, 30_000));
}

#[test]
fn snapshot_reports_state_and_times() {
    let mut runtime = GameProcessRuntime::default();
    runtime.update_process_observation(true, 7_000);
    let snap = runtime.snapshot();
    assert_eq!(snap.state, GameProcessState::Running);
    assert_eq!(snap.last_seen_running_at_ms, Some(7_000));
    assert_eq!(snap.cooldown_started_at_ms, None);
}
