use pubg_point_rankings::commands::accounts::{create_account_input, update_account_input, CreateAccountRequest, UpdateAccountRequest};
use pubg_point_rankings::commands::app::app_status;
use pubg_point_rankings::commands::points::{history_page, points_page};
use pubg_point_rankings::commands::sync::{sync_start_match_result, sync_start_result, sync_status};
use pubg_point_rankings::commands::teammates::{
    create_teammate_input, teammate_history, update_teammate_input, CreateTeammateRequest, UpdateTeammateRequest,
};
use pubg_point_rankings::repository::points::PointRecordDto;
use pubg_point_rankings::repository::teammates::{recent_candidates, RecentTeammateCandidateRow, TeammateDto};
use pubg_point_rankings::services::sync::{SyncResult, SyncRuntimeStatus};

fn candidate(account: Option<&str>, name: &str, at: &str) -> RecentTeammateCandidateRow {
    RecentTeammateCandidateRow {
        platform: "steam".to_string(),
        pubg_account_id: account.map(ToOwned::to_owned),
        pubg_player_name: name.to_string(),
        last_teammate_at: at.to_string(),
    }
}

#[test]
fn recent_candidates_merge_by_identity_and_skip_friends() {
    let rows = vec![
        candidate(Some("a1"), "Alpha", "2026-03-29T10:00:00Z"),
        candidate(Some("a1"), "Alpha", "2026-03-30T10:00:00Z"),
        candidate(None, "Bravo", "2026-03-28T10:00:00Z"),
        candidate(Some("  "), "BRAVO", "2026-03-27T10:00:00Z"),
        candidate(Some("a3"), "Charlie", "2026-03-30T10:00:00Z"),
        candidate(Some("a4"), "Friend", "2026-03-31T10:00:00Z"),
    ];
    let is_friend = vec![false, false, false, false, false, true];
    let out = recent_candidates(&rows, &is_friend);
    let names: Vec<&str> = out.iter().map(|c| c.pubg_player_name.as_str()).collect();
    assert_eq!(names, vec!["Alpha", "Charlie", "Bravo"]);
    assert_eq!(out[0].last_teammate_at, "2026-03-30T10:00:00Z");
    assert_eq!(out[2].last_teammate_at, "2026-03-28T10:00:00Z");
    assert!(out.iter().all(|c| !c.is_friend));
}

#[test]
fn requests_fill_their_defaults() {
    let account = create_account_input(CreateAccountRequest {
        account_name: "main".to_string(),
        self_player_name: "allOwO".to_string(),
        self_platform: "steam".to_string(),
        pubg_api_key: "key".to_string(),
        set_active: None,
    });
    assert!(account.set_active);
    assert_eq!(account.account_name, "main");
    let update = update_account_input(UpdateAccountRequest {
        account_name: "alt".to_string(),
        self_player_name: "b".to_string(),
        self_platform: "kakao".to_string(),
        pubg_api_key: "k2".to_string(),
    });
    assert_eq!(update.self_platform, "kakao");

    let teammate = create_teammate_input(CreateTeammateRequest {
        platform: "steam".to_string(),
        pubg_account_id: None,
        pubg_player_name: "Mate".to_string(),
        display_nickname: Some("老二".to_string()),
        is_points_enabled: None,
    });
    assert!(teammate.is_points_enabled);
    assert_eq!(teammate.display_nickname.as_deref(), Some("老二"));
    let changed = update_teammate_input(UpdateTeammateRequest { id: 4, display_nickname: None, is_points_enabled: Some(false) });
    assert_eq!(changed.id, 4);
    assert_eq!(changed.is_points_enabled, Some(false));

    assert_eq!(points_page(None, None), (100, 0));
    assert_eq!(points_page(Some(5), Some(10)), (5, 10));
    assert_eq!(history_page(None, None), (50, 0));
}

fn record(id: i64) -> PointRecordDto {
    PointRecordDto {
        id,
        account_id: 1,
        match_id: format!("m{id}"),
        match_player_id: id,
        teammate_id: Some(4),
        rule_id: 1,
        rule_name_snapshot: "Default Rules".to_string(),
        damage_points_per_damage_snapshot: 2,
        kill_points_snapshot: 300,
        revive_points_snapshot: 150,
        rounding_mode_snapshot: "round".to_string(),
        points: 100,
        note: None,
        created_at: "t".to_string(),
    }
}

#[test]
fn teammate_history_counts_the_records() {
    let mate = TeammateDto {
        id: 4,
        account_id: 1,
        platform: "steam".to_string(),
        pubg_account_id: None,
        pubg_player_name: "Mate".to_string(),
        display_nickname: None,
        is_friend: true,
        is_points_enabled: true,
        total_points: 200,
        last_seen_at: None,
        created_at: "t".to_string(),
        updated_at: "t".to_string(),
    };
    let history = teammate_history(Some(mate), vec![record(1), record(2)]).expect("history");
    assert_eq!(history.total_matches, 2);
    assert_eq!(history.teammate.id, 4);
    match teammate_history(None, vec![record(1)]) {
        Err(e) => assert_eq!(e.message(), "Teammate not found"),
        Ok(_) => panic!("a missing teammate is an error"),
    }
}

#[test]
fn statuses_hide_a_blank_last_sync_time() {
    let running = SyncRuntimeStatus { is_syncing: true, current_match_id: Some("m1".to_string()), last_error: None };
    let status = sync_status(running.clone(), String::new());
    assert!(status.is_syncing);
    assert_eq!(status.last_sync_at, None);
    assert_eq!(status.current_match_id.as_deref(), Some("m1"));

    let app = app_status("0.1.0".to_string(), "/tmp/app.db".to_string(), running, "2026-03-29T14:47:49Z".to_string());
    assert!(app.is_database_ready);
    assert_eq!(app.version, "0.1.0");
    assert_eq!(app.sync_status.last_sync_at.as_deref(), Some("2026-03-29T14:47:49Z"));

    let failed = SyncResult::failed("boom".to_string());
    let start = sync_start_result(failed.clone());
    assert!(!start.success);
    assert_eq!(start.error.as_deref(), Some("boom"));
    let started = sync_start_match_result(SyncResult::empty_success());
    assert!(started.success);
    assert!(started.match_data.is_none());
}
