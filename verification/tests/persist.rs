use pubg_point_rankings::engine::calculator::{PlayerStats, RuleConfig};
use pubg_point_rankings::parser::telemetry::TelemetryKillEvent;
use pubg_point_rankings::repository::rules::PointRuleDto;
use pubg_point_rankings::repository::teammates::TeammateDto;
use pubg_point_rankings::services::persist::{
    active_rule_config, derive_match_start_at, kill_event_inputs, match_row_input, plan_players, point_record_input,
    FetchedMatch,
};

fn stats(account: &str, name: &str, team: i64, damage: i64, kills: i64, revives: i64) -> PlayerStats {
    PlayerStats {
        pubg_account_id: account.to_string(),
        pubg_player_name: name.to_string(),
        damage,
        kills,
        assists: 0,
        revives,
        team_id: Some(team),
        placement: Some(2),
    }
}

fn teammate(id: i64, name: &str, nickname: Option<&str>, enabled: bool) -> TeammateDto {
    TeammateDto {
        id,
        account_id: 1,
        platform: "steam".to_string(),
        pubg_account_id: None,
        pubg_player_name: name.to_string(),
        display_nickname: nickname.map(ToOwned::to_owned),
        is_friend: true,
        is_points_enabled: enabled,
        total_points: 0,
        last_seen_at: None,
        created_at: "t".to_string(),
        updated_at: "t".to_string(),
    }
}

fn rule() -> RuleConfig {
    RuleConfig {
        id: 3,
        name: "Default Rules".to_string(),
        damage_points_per_damage: 2,
        kill_points: 300,
        revive_points: 150,
        rounding_mode: "round".to_string(),
    }
}

#[test]
fn only_the_own_team_plays_for_points() {
    let players = vec![
        stats("a1", "allOwO", 7, 100_000, 1, 0),
        stats("a2", "Mate", 7, 50_000, 0, 1),
        stats("", "Quiet", 7, 10_000, 0, 0),
        stats("a4", "Enemy", 9, 300_000, 5, 0),
    ];
    let teammates = vec![None, Some(teammate(11, "Mate", Some("老二"), false)), None, Some(teammate(12, "Enemy", None, true))];
    let plan = plan_players("m1", "ALLOWO", &players, &teammates, &rule());

    assert_eq!(plan.enabled_player_keys.len(), 2);
    assert!(plan.enabled_player_keys.contains(&"account:a1".to_string()));
    assert!(plan.enabled_player_keys.contains(&"name:quiet".to_string()));

    let totals: Vec<i64> = plan.calculated_points.iter().map(|c| c.total_points).collect();
    assert_eq!(totals, vec![500, 0, 20, 0]);

    assert!(plan.players[0].is_self);
    assert!(!plan.players[1].is_self);
    assert_eq!(plan.players[1].teammate_id, Some(11));
    assert_eq!(plan.players[1].display_nickname_snapshot.as_deref(), Some("老二"));
    assert_eq!(plan.players[2].display_nickname_snapshot.as_deref(), Some("Quiet"));
    assert!(!plan.players[3].is_points_enabled_snapshot);
    assert_eq!(plan.teammate_ids, vec![None, Some(11), None, Some(12)]);
    assert_eq!(plan.last_seen_teammate_ids, vec![11]);
}

#[test]
fn without_the_own_player_nobody_plays_for_points() {
    let players = vec![stats("a2", "Mate", 7, 50_000, 0, 1)];
    let plan = plan_players("m1", "allOwO", &players, &vec![None], &rule());
    assert!(plan.enabled_player_keys.is_empty());
    assert_eq!(plan.calculated_points[0].total_points, 0);
    assert!(plan.last_seen_teammate_ids.is_empty());
}

fn fetched(start: Option<&str>, end: Option<&str>, duration: Option<i64>) -> FetchedMatch {
    FetchedMatch {
        match_id: "m1".to_string(),
        platform: "steam".to_string(),
        map_name: Some("Erangel".to_string()),
        game_mode: None,
        created_at: "2026-03-29T14:47:49Z".to_string(),
        duration,
        telemetry_url: "https://telemetry".to_string(),
        telemetry_start_at: start.map(ToOwned::to_owned),
        telemetry_end_at: end.map(ToOwned::to_owned),
    }
}

#[test]
fn match_row_falls_back_to_creation_time_and_derived_start() {
    let row = match_row_input(&fetched(None, None, Some(1800)));
    assert_eq!(row.match_end_at.as_deref(), Some("2026-03-29T14:47:49Z"));
    assert_eq!(row.match_start_at.as_deref(), Some("2026-03-29T14:17:49+00:00"));
    assert_eq!(row.status, "syncing");
    assert_eq!(row.played_at, "2026-03-29T14:47:49Z");
    assert_eq!(row.telemetry_url.as_deref(), Some("https://telemetry"));

    let row = match_row_input(&fetched(Some("s"), Some("e"), Some(1800)));
    assert_eq!(row.match_start_at.as_deref(), Some("s"));
    assert_eq!(row.match_end_at.as_deref(), Some("e"));
}

#[test]
fn match_start_is_derived_only_from_a_readable_end() {
    assert_eq!(
        derive_match_start_at(Some("2026-03-29T22:47:49+08:00"), Some(60)).as_deref(),
        Some("2026-03-29T14:46:49+00:00")
    );
    assert_eq!(derive_match_start_at(Some("not a time"), Some(60)), None);
    assert_eq!(derive_match_start_at(None, Some(60)), None);
    assert_eq!(derive_match_start_at(Some("2026-03-29T14:47:49Z"), None), None);
}

#[test]
fn points_need_an_active_rule() {
    match active_rule_config(None) {
        Err(e) => assert_eq!(e.message(), "No active point rule configured."),
        Ok(_) => panic!("no rule is an error"),
    }
    let active = PointRuleDto {
        id: 3,
        account_id: 1,
        name: "Default Rules".to_string(),
        damage_points_per_damage: 2,
        kill_points: 300,
        revive_points: 150,
        is_active: true,
        rounding_mode: "ceil".to_string(),
        created_at: "t".to_string(),
        updated_at: "t".to_string(),
    };
    let config = active_rule_config(Some(active)).expect("rule");
    assert_eq!(config.id, 3);
    assert_eq!(config.rounding_mode, "ceil");

    let record = point_record_input("m1", 40, Some(11), &config, 950);
    assert_eq!(record.match_id, "m1");
    assert_eq!(record.match_player_id, 40);
    assert_eq!(record.teammate_id, Some(11));
    assert_eq!(record.rule_name_snapshot, "Default Rules");
    assert_eq!(record.kill_points_snapshot, 300);
    assert_eq!(record.points, 950);
    assert_eq!(record.note, None);
}

#[test]
fn kill_records_name_their_assistant() {
    let players = vec![stats("a1", "allOwO", 7, 0, 0, 0), stats("a2", "Mate", 7, 0, 0, 0), stats("", "Quiet", 7, 0, 0, 0)];
    let kill = |assistant: Option<&str>| TelemetryKillEvent {
        killer_account_id: Some("a1".to_string()),
        killer_name: Some("allOwO".to_string()),
        victim_account_id: Some("x".to_string()),
        victim_name: Some("X".to_string()),
        assistant_account_id: assistant.map(ToOwned::to_owned),
        damage_type_category: None,
        damage_causer_name: Some("M416".to_string()),
        event_at: None,
    };
    let rows = kill_event_inputs("m1", &vec![kill(Some("a2")), kill(Some("zz")), kill(None)], &players);
    assert_eq!(rows.len(), 3);
    assert_eq!(rows[0].assistant_name.as_deref(), Some("Mate"));
    assert_eq!(rows[1].assistant_name, None);
    assert_eq!(rows[2].assistant_name, None);
    assert_eq!(rows[0].match_id, "m1");
    assert_eq!(rows[0].damage_causer_name.as_deref(), Some("M416"));
}

#[test]
fn a_start_beyond_the_calendar_is_unknown() {
    assert_eq!(derive_match_start_at(Some("2026-01-01T10:30:00Z"), Some(10_000_000_000_000)), None);
    assert_eq!(derive_match_start_at(Some("2026-01-01T10:30:00Z"), Some(i64::MAX)), None);
    assert_eq!(derive_match_start_at(Some("2026-01-01T10:30:00Z"), Some(i64::MIN)), None);
    assert_eq!(
        derive_match_start_at(Some("2026-01-01T10:30:00Z"), Some(-3600)).as_deref(),
        Some("2026-01-01T11:30:00+00:00")
    );
}
