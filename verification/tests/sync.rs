use pubg_point_rankings::engine::calculator::PlayerStats;
use pubg_point_rankings::error::app_error;
use pubg_point_rankings::pubg::client::PubgMatchParticipantStats;
use pubg_point_rankings::repository::matches::MatchDto;
use pubg_point_rankings::services::sync::{
    begin_batch, begin_sync, end_sync, finish_batch, match_needs_refresh, merge_player_stats, no_recent_matches_answer,
    normalize_platform, start_batch, BatchStart,
    read_manual_task_status, record_batch_outcome, require_api_key, require_player_name, retry_decision,
    run_manual_sync_job, select_matches_to_fetch, set_manual_task_syncing, ManualSyncTaskState, ManualSyncTaskStatus,
    RetryAction, SyncResult, SyncRuntimeStatus,
};

fn success() -> SyncResult {
    SyncResult::empty_success()
}

#[test]
fn run_manual_sync_job_marks_success_state() {
    let mut manual_status = ManualSyncTaskStatus::default();
    set_manual_task_syncing(&mut manual_status, "2026-01-01T00:00:00Z".to_string());

    let result = run_manual_sync_job(&mut manual_status, "2026-01-01T00:01:00Z".to_string(), Ok(success()));

    assert!(result.success);
    let latest = read_manual_task_status(Some(&manual_status)).expect("read manual status");
    assert_eq!(latest.state, ManualSyncTaskState::Success);
    assert!(latest.started_at.is_some());
    assert!(latest.finished_at.is_some());
    assert_eq!(latest.error_message, None);
}

#[test]
fn run_manual_sync_job_marks_failed_state() {
    let mut manual_status = ManualSyncTaskStatus::default();
    set_manual_task_syncing(&mut manual_status, "2026-01-01T00:00:00Z".to_string());

    let result = run_manual_sync_job(&mut manual_status, "2026-01-01T00:01:00Z".to_string(), Ok(SyncResult::failed("boom".to_string())));

    assert!(!result.success);
    let latest = read_manual_task_status(Some(&manual_status)).expect("read manual status");
    assert_eq!(latest.state, ManualSyncTaskState::Failed);
    assert_eq!(latest.error_message.as_deref(), Some("boom"));
}

#[test]
fn read_manual_task_status_returns_error_when_mutex_is_poisoned() {
    let error = read_manual_task_status(None).expect_err("expects poisoned mutex");
    assert!(error.message().contains("manual sync task status mutex is poisoned"));
}

#[test]
fn a_job_error_becomes_a_failed_result() {
    let mut manual_status = ManualSyncTaskStatus::default();
    let result = run_manual_sync_job(&mut manual_status, "t".to_string(), Err(app_error("network down")));
    assert!(!result.success);
    assert_eq!(result.error.as_deref(), Some("network down"));
    assert_eq!(manual_status.state, ManualSyncTaskState::Failed);
}

#[test]
fn only_one_sync_runs_at_a_time() {
    let mut status = SyncRuntimeStatus::default();
    assert!(begin_sync(&mut status, "m1").is_none());
    assert!(status.is_syncing);
    let busy = begin_sync(&mut status, "m2").expect("busy");
    assert_eq!(busy.error.as_deref(), Some("Another sync is already running for m1."));
    assert_eq!(status.current_match_id.as_deref(), Some("m1"));
    end_sync(&mut status, Some("oops".to_string()));
    assert!(!status.is_syncing);
    assert_eq!(status.last_error.as_deref(), Some("oops"));
    assert!(begin_sync(&mut status, "m3").is_none());
    assert_eq!(status.last_error, None);
}

#[test]
fn credentials_are_trimmed_and_required() {
    assert_eq!(require_api_key("  key ").expect("key"), "key");
    assert_eq!(require_api_key("   ").unwrap_err().message(), "Please configure PUBG API key before starting sync.");
    assert_eq!(require_player_name(" me ").expect("name"), "me");
    assert_eq!(require_player_name("").unwrap_err().message(), "Please configure your PUBG player name before syncing.");
}

#[test]
fn platforms_are_normalized() {
    assert_eq!(normalize_platform(" XBOX ".to_string()), "xbox");
    assert_eq!(normalize_platform("kakao".to_string()), "kakao");
    assert_eq!(normalize_platform("stadia".to_string()), "steam");
}

fn stored_match(status: &str, start: bool, end: bool) -> MatchDto {
    MatchDto {
        id: 1,
        account_id: 1,
        match_id: "m".to_string(),
        platform: "steam".to_string(),
        map_name: None,
        game_mode: None,
        played_at: "t".to_string(),
        match_start_at: if start { Some("s".to_string()) } else { None },
        match_end_at: if end { Some("e".to_string()) } else { None },
        telemetry_url: None,
        status: status.to_string(),
        created_at: "t".to_string(),
        updated_at: "t".to_string(),
    }
}

#[test]
fn a_match_is_refetched_unless_complete() {
    assert!(match_needs_refresh(None, true, true));
    assert!(match_needs_refresh(Some(&stored_match("syncing", true, true)), true, true));
    assert!(match_needs_refresh(Some(&stored_match("ready", false, true)), true, true));
    assert!(match_needs_refresh(Some(&stored_match("ready", true, true)), false, true));
    assert!(match_needs_refresh(Some(&stored_match("ready", true, true)), true, false));
    assert!(!match_needs_refresh(Some(&stored_match("ready", true, true)), true, true));
}

#[test]
fn batch_keeps_first_success_and_first_error() {
    let ids = vec!["a".to_string(), "b".to_string(), "c".to_string()];
    let (to_fetch, fresh) = select_matches_to_fetch(&ids, &vec![true, false, true]);
    assert_eq!(to_fetch, vec!["a".to_string(), "c".to_string()]);
    assert_eq!(fresh, Some(1));

    let mut progress = begin_batch(None);
    assert!(record_batch_outcome(&mut progress, Err(app_error("first"))));
    assert!(record_batch_outcome(&mut progress, Ok(SyncResult::failed("second".to_string()))));
    let failed = finish_batch(progress);
    assert_eq!(failed.error.as_deref(), Some("first"));

    let mut progress = begin_batch(None);
    assert!(!record_batch_outcome(&mut progress, Ok(success())));
    assert!(record_batch_outcome(&mut progress, Err(app_error("later"))));
    assert!(finish_batch(progress).success);

    assert_eq!(finish_batch(begin_batch(None)).error.as_deref(), Some("Failed to sync recent matches."));
}

#[test]
fn automatic_sync_retries_then_gives_up() {
    match retry_decision(1, 0, 15, Ok(success())) {
        RetryAction::Stop { message, .. } => assert_eq!(message, "automatic recent-match sync completed"),
        RetryAction::Retry { .. } => panic!("expected stop"),
    }
    match retry_decision(3, 2, 15, Ok(success())) {
        RetryAction::Stop { message, .. } => assert_eq!(message, "automatic recent-match sync completed after 3 attempts"),
        RetryAction::Retry { .. } => panic!("expected stop"),
    }
    match retry_decision(1, 0, 15, Err(app_error("boom"))) {
        RetryAction::Retry { message, .. } => {
            assert_eq!(message, "automatic recent-match sync attempt 1 failed: boom; retrying in 15 seconds")
        }
        RetryAction::Stop { .. } => panic!("expected retry"),
    }
    match retry_decision(2, 0, 15, Ok(SyncResult::failed("x".to_string()))) {
        RetryAction::Stop { message, .. } => assert_eq!(message, "automatic recent-match sync failed after 2 attempts: x"),
        RetryAction::Retry { .. } => panic!("expected stop"),
    }
}

fn participant(id: &str, name: &str, kills: i64, assists: i64, damage: i64, team: Option<i64>) -> PubgMatchParticipantStats {
    PubgMatchParticipantStats {
        pubg_account_id: id.to_string(),
        pubg_player_name: name.to_string(),
        team_id: team,
        placement: None,
        damage,
        kills,
        assists,
        revives: 0,
    }
}

fn tel(id: &str, name: &str, kills: i64, damage: i64, team: Option<i64>, placement: Option<i64>) -> PlayerStats {
    PlayerStats {
        pubg_account_id: id.to_string(),
        pubg_player_name: name.to_string(),
        damage,
        kills,
        assists: 3,
        revives: 0,
        team_id: team,
        placement,
    }
}

#[test]
fn merged_stats_prefer_the_api_and_fill_gaps_from_telemetry() {
    let parts = vec![participant("a1", "one", 1, 0, 10_049, None), participant("a2", "two", 2, 1, 5_000, Some(4))];
    let telemetry = vec![tel("a1", "one", 9, 99_000, Some(7), Some(3)), tel("a3", "three", 1, 20_000, Some(8), Some(9))];
    let merged = merge_player_stats(&parts, &telemetry);
    let names: Vec<&str> = merged.iter().map(|p| p.pubg_player_name.as_str()).collect();
    assert_eq!(names, vec!["two", "three", "one"]);
    assert_eq!(merged[2].team_id, Some(7));
    assert_eq!(merged[2].placement, Some(3));
    assert_eq!(merged[2].kills, 1);
    assert_eq!(merged[2].damage, 10_000);
    assert_eq!(merged[1].assists, 0);
}

#[test]
fn a_batch_without_recent_matches_fails_and_one_with_them_goes_on() {
    let answer = no_recent_matches_answer(&Vec::new()).expect("an answer");
    assert!(!answer.success);
    assert_eq!(answer.error.as_deref(), Some("No recent matches found."));
    assert!(no_recent_matches_answer(&vec!["m1".to_string()]).is_none());
}

#[test]
fn a_batch_with_nothing_to_fetch_answers_with_the_stored_result() {
    let stored = SyncResult { error: Some("stored".to_string()), ..success() };
    match start_batch(&Vec::new(), Some(stored)) {
        BatchStart::Done(r) => {
            assert!(r.success);
            assert_eq!(r.error.as_deref(), Some("stored"));
        },
        BatchStart::Fetch(_) => panic!("nothing to fetch"),
    }
    match start_batch(&Vec::new(), None) {
        BatchStart::Done(r) => {
            assert!(r.success);
            assert!(r.match_data.is_none() && r.players.is_none() && r.points.is_none() && r.error.is_none());
        },
        BatchStart::Fetch(_) => panic!("nothing to fetch"),
    }
    match start_batch(&vec!["m1".to_string()], None) {
        BatchStart::Fetch(progress) => {
            assert!(progress.latest_success.is_none());
            assert!(progress.first_error.is_none());
            assert_eq!(finish_batch(progress).error.as_deref(), Some("Failed to sync recent matches."));
        },
        BatchStart::Done(_) => panic!("one match to fetch"),
    }
}

#[test]
fn merged_stats_keep_equal_players_in_the_order_they_came() {
    let parts = vec![participant("b2", "Same", 1, 0, 5_000, None), participant("b1", "Same", 1, 0, 5_000, None)];
    let merged = merge_player_stats(&parts, &Vec::new());
    let ids: Vec<&str> = merged.iter().map(|p| p.pubg_account_id.as_str()).collect();
    assert_eq!(ids, vec!["b2", "b1"]);
    let reversed = vec![parts[1].clone(), parts[0].clone()];
    let merged = merge_player_stats(&reversed, &Vec::new());
    let ids: Vec<&str> = merged.iter().map(|p| p.pubg_account_id.as_str()).collect();
    assert_eq!(ids, vec!["b1", "b2"]);
}
