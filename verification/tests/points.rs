use pubg_point_rankings::repository::point_repair::{
    plan_point_repairs, plan_unsettled_recalculation, RepairRow, TeammatePointsFlag,
};
use pubg_point_rankings::repository::point_summary::{summarize_unsettled, unsettled_summary_fits, TeammateNickname};
use pubg_point_rankings::repository::points::{
    breakdowns_gap_fit, build_history_groups, calculate_battle_deltas_for_players, history_groups_checked, history_items,
    page_match_ids, HistoryGroupRow,
    PointHistoryListItemDto, PointHistoryPlayerBreakdownDto,
};
use pubg_point_rankings::repository::rules::PointRuleDto;

// Damage is in thousandths of a hit point.

fn player(match_player_id: i64, total_points: i64, enabled: bool) -> PointHistoryPlayerBreakdownDto {
    PointHistoryPlayerBreakdownDto {
        match_player_id,
        teammate_id: Some(match_player_id),
        pubg_account_id: None,
        pubg_player_name: format!("player-{match_player_id}"),
        display_nickname_snapshot: None,
        is_self: match_player_id == 1,
        is_points_enabled_snapshot: enabled,
        damage: 100_000,
        kills: 1,
        revives: 0,
        damage_points_per_damage_snapshot: 2,
        kill_points_snapshot: 300,
        revive_points_snapshot: 0,
        damage_points: 200,
        kill_points: 300,
        revive_points: 0,
        total_points,
    }
}

#[test]
fn battle_delta_assigns_gap_to_highest_and_lowest_with_stable_tie_break() {
    let players = vec![player(1, 1000, true), player(2, 900, true), player(3, 800, true), player(4, 700, true)];

    let deltas = calculate_battle_deltas_for_players(&players);

    assert_eq!(deltas.len(), 4);
    assert_eq!(deltas[0].delta, 300);
    assert_eq!(deltas[1].delta, 0);
    assert_eq!(deltas[2].delta, 0);
    assert_eq!(deltas[3].delta, -300);
}

#[test]
fn battle_delta_is_zero_when_less_than_two_enabled_players() {
    let players = vec![player(1, 1000, true), player(2, 500, false), player(3, 300, false)];

    let deltas = calculate_battle_deltas_for_players(&players);
    assert!(deltas.iter().all(|value| value.delta == 0));
}

#[test]
fn battle_delta_is_zero_when_highest_equals_lowest() {
    let players = vec![player(1, 1000, true), player(2, 1000, true), player(3, 1000, true)];

    let deltas = calculate_battle_deltas_for_players(&players);
    assert!(deltas.iter().all(|value| value.delta == 0));
}

#[test]
fn battle_ties_go_to_the_smaller_match_player_id() {
    let players = vec![player(7, 500, true), player(3, 500, true), player(9, 100, true), player(5, 100, true)];
    let deltas = calculate_battle_deltas_for_players(&players);
    let by_id: Vec<(i64, i64)> = deltas.iter().map(|d| (d.match_player_id, d.delta)).collect();
    assert_eq!(by_id, vec![(7, 0), (3, 400), (9, 0), (5, -400)]);
    assert_eq!(deltas.iter().map(|d| d.delta).sum::<i64>(), 0);
}

/// A history row as the joined query gives it (snapshots 1 per damage, 10 per kill, round).
fn row(match_id: &str, played_at: &str, settled: bool, id: i64, teammate_id: Option<i64>, name: &str, team: i64, damage: i64, kills: i64, is_self: bool, enabled: bool, points: i64) -> HistoryGroupRow {
    HistoryGroupRow {
        match_id: match_id.to_string(),
        played_at: played_at.to_string(),
        map_name: Some("Erangel".to_string()),
        game_mode: Some("squad".to_string()),
        rule_id: 1,
        rule_name_snapshot: "Default Rules".to_string(),
        note: None,
        settled_at: if settled { Some("2026-01-05T00:00:00Z".to_string()) } else { None },
        settlement_batch_id: None,
        match_player_id: id,
        teammate_id,
        team_id: Some(team),
        pubg_account_id: None,
        pubg_player_name: name.to_string(),
        display_nickname_snapshot: None,
        is_self,
        is_points_enabled_snapshot: enabled,
        damage,
        kills,
        revives: 0,
        damage_points_per_damage_snapshot: 1,
        kill_points_snapshot: 10,
        revive_points_snapshot: 0,
        rounding_mode_snapshot: "round".to_string(),
        total_points: points,
    }
}

#[test]
fn history_and_unsettled_summary_include_same_team_non_participants_but_exclude_enemies() {
    let rows = vec![
        row("team-filter-1", "2026-01-06T00:00:00Z", false, 1, None, "SelfPlayer", 10, 100_000, 1, true, true, 110),
        row("team-filter-1", "2026-01-06T00:00:00Z", false, 2, Some(301), "SquadMate", 10, 80_000, 0, false, false, 0),
        row("team-filter-1", "2026-01-06T00:00:00Z", false, 3, None, "Enemy", 20, 200_000, 4, false, true, 240),
    ];

    let groups = build_history_groups(&rows);
    let history = history_items(groups.clone());

    let PointHistoryListItemDto::MatchGroup(group) = &history[0] else {
        panic!("expected match group");
    };
    let player_names = group.players.iter().map(|player| player.pubg_player_name.clone()).collect::<Vec<_>>();
    assert_eq!(player_names, vec!["SelfPlayer".to_string(), "SquadMate".to_string()]);
    assert_eq!(group.players[0].is_points_enabled_snapshot, true);
    assert_eq!(group.players[1].is_points_enabled_snapshot, false);
    assert_eq!(group.players[1].total_points, 0);

    let teammates = vec![TeammateNickname { teammate_id: 301, display_nickname: None }];
    let unsettled_summary = summarize_unsettled(&groups, Some((1, "Default Rules".to_string())), &teammates);
    let unsettled_names = unsettled_summary.players.iter().map(|player| player.pubg_player_name.clone()).collect::<Vec<_>>();
    assert_eq!(unsettled_names, vec!["SelfPlayer".to_string(), "SquadMate".to_string()]);
    assert_eq!(unsettled_summary.players[0].total_delta, 0);
    assert_eq!(unsettled_summary.players[1].total_delta, 0);
}

#[test]
fn unsettled_summary_merges_same_player_even_if_teammate_id_changed() {
    // Newest match first, as the unsettled query lists them.
    let rows = vec![
        row("duplicate-summary-2", "2026-01-08T00:00:00Z", false, 3, None, "SelfPlayer", 1, 120_000, 1, true, true, 130),
        row("duplicate-summary-2", "2026-01-08T00:00:00Z", false, 4, Some(402), "Bravo", 1, 20_000, 0, false, false, 0),
        row("duplicate-summary-1", "2026-01-07T00:00:00Z", false, 1, None, "SelfPlayer", 1, 100_000, 1, true, true, 110),
        row("duplicate-summary-1", "2026-01-07T00:00:00Z", false, 2, Some(401), "Bravo", 1, 50_000, 1, false, false, 0),
    ];
    let groups = build_history_groups(&rows);
    let teammates = vec![
        TeammateNickname { teammate_id: 401, display_nickname: None },
        TeammateNickname { teammate_id: 402, display_nickname: None },
    ];
    let unsettled_summary = summarize_unsettled(&groups, Some((1, "Default Rules".to_string())), &teammates);

    let bravo_entries = unsettled_summary.players.iter().filter(|player| player.pubg_player_name == "Bravo").collect::<Vec<_>>();

    assert_eq!(bravo_entries.len(), 1);
    assert_eq!(bravo_entries[0].total_delta, 0);
    assert_eq!(unsettled_summary.unsettled_match_count, 2);
}

#[test]
fn unsettled_summary_sums_deltas_and_ranks_players() {
    let rows = vec![
        row("m2", "2026-01-08T00:00:00Z", false, 3, None, "SelfPlayer", 1, 0, 0, true, true, 50),
        row("m2", "2026-01-08T00:00:00Z", false, 4, Some(7), "Bravo", 1, 0, 0, false, true, 20),
        row("m1", "2026-01-07T00:00:00Z", false, 1, None, "SelfPlayer", 1, 0, 0, true, true, 100),
        row("m1", "2026-01-07T00:00:00Z", false, 2, Some(7), "Bravo", 1, 0, 0, false, true, 40),
    ];
    let groups = build_history_groups(&rows);
    let teammates = vec![TeammateNickname { teammate_id: 7, display_nickname: Some("B".to_string()) }];
    let summary = summarize_unsettled(&groups, None, &teammates);
    let lines: Vec<(String, i64, Option<String>)> =
        summary.players.iter().map(|p| (p.pubg_player_name.clone(), p.total_delta, p.display_nickname.clone())).collect();
    assert_eq!(lines, vec![("SelfPlayer".to_string(), 90, None), ("Bravo".to_string(), -90, Some("B".to_string()))]);
    assert_eq!(summary.rule_id, Some(1));
}

#[test]
fn empty_unsettled_summary_names_the_active_rule() {
    let summary = summarize_unsettled(&Vec::new(), Some((3, "Active".to_string())), &Vec::new());
    assert_eq!(summary.rule_id, Some(3));
    assert_eq!(summary.active_rule_name.as_deref(), Some("Active"));
    assert_eq!(summary.unsettled_match_count, 0);
    assert!(summary.players.is_empty());
}

fn repair_row(id: i64, teammate_id: Option<i64>, name: &str, team: i64, damage: i64, kills: i64, revives: i64, is_self: bool, enabled: bool, points: i64) -> RepairRow {
    RepairRow {
        match_id: "repair-1".to_string(),
        match_player_id: id,
        teammate_id,
        pubg_player_name: name.to_string(),
        team_id: Some(team),
        damage,
        kills,
        revives,
        damage_points_per_damage_snapshot: 1,
        kill_points_snapshot: 10,
        revive_points_snapshot: 0,
        rounding_mode_snapshot: "round".to_string(),
        match_player_points: points,
        point_record_points: points,
        is_self,
        is_points_enabled_snapshot: enabled,
    }
}

#[test]
fn repair_points_with_current_identities_updates_self_enabled_flags_and_totals() {
    let rows = vec![
        repair_row(1, None, "SelfPlayer", 1, 100_000, 1, 1, false, false, 0),
        repair_row(2, Some(201), "Bravo", 1, 80_000, 1, 0, false, false, 0),
        repair_row(3, None, "Random", 2, 120_000, 3, 0, false, true, 999),
    ];
    let flags = vec![TeammatePointsFlag { teammate_id: 201, is_points_enabled: false }];

    let plan = plan_point_repairs(&rows, "SelfPlayer", &flags);

    assert_eq!(plan.repaired_match_count, 1);
    let repaired: Vec<(i64, bool, bool, i64)> =
        plan.repairs.iter().map(|r| (r.match_player_id, r.is_self, r.is_points_enabled_snapshot, r.total_points)).collect();
    // Bravo already holds what it should; the other two are rewritten.
    assert_eq!(repaired, vec![(1, true, true, 110), (3, false, false, 0)]);
}

#[test]
fn repairing_what_was_repaired_changes_nothing() {
    let mut rows = vec![
        repair_row(1, None, "selfplayer", 1, 100_000, 1, 1, false, false, 0),
        repair_row(2, None, "Mate", 1, 80_000, 1, 0, false, false, 0),
    ];
    let plan = plan_point_repairs(&rows, "SelfPlayer", &Vec::new());
    for r in &plan.repairs {
        let row = rows.iter_mut().find(|row| row.match_player_id == r.match_player_id).unwrap();
        row.is_self = r.is_self;
        row.is_points_enabled_snapshot = r.is_points_enabled_snapshot;
        row.match_player_points = r.total_points;
        row.point_record_points = r.total_points;
    }
    assert_eq!(plan.repairs.len(), 2);
    assert!(plan_point_repairs(&rows, "SelfPlayer", &Vec::new()).repairs.is_empty());
}

fn rule(id: i64, name: &str, per_damage: i64, kill: i64, revive: i64) -> PointRuleDto {
    PointRuleDto {
        id,
        account_id: 1,
        name: name.to_string(),
        damage_points_per_damage: per_damage,
        kill_points: kill,
        revive_points: revive,
        is_active: false,
        rounding_mode: "round".to_string(),
        created_at: "t".to_string(),
        updated_at: "t".to_string(),
    }
}

#[test]
fn recalculate_unsettled_updates_only_unsettled_matches_and_teammate_totals() {
    // Only the unsettled match is listed; the settled one is not among the groups.
    let rows = vec![
        row("unsettled-1", "2026-01-03T00:00:00Z", false, 1, Some(101), "Alpha", 1, 100_000, 1, true, true, 110),
        row("unsettled-1", "2026-01-03T00:00:00Z", false, 2, Some(102), "Bravo", 1, 50_000, 2, false, true, 70),
    ];
    let groups = build_history_groups(&rows);

    let plan = plan_unsettled_recalculation(Some(rule(2, "New Rule", 2, 100, 50)), &groups).expect("recalculate");

    assert_eq!(plan.result.rule_id, 2);
    assert_eq!(plan.result.rule_name, "New Rule");
    assert_eq!(plan.result.recalculated_match_count, 1);
    let totals: Vec<(i64, i64)> = plan.updates.iter().map(|u| (u.match_player_id, u.total_points)).collect();
    assert_eq!(totals, vec![(1, 300), (2, 300)]);
    assert_eq!(plan.teammate_ids, vec![101, 102]);
}

#[test]
fn recalculating_with_a_missing_rule_fails() {
    let err = plan_unsettled_recalculation(None, &Vec::new()).err().expect("no rule");
    assert_eq!(err.message(), "Rule not found");
}

#[test]
fn history_pages_are_clamped() {
    let ids: Vec<String> = (0..5).map(|i| format!("m{i}")).collect();
    assert_eq!(page_match_ids(ids.clone(), Some(2), 1), vec!["m1", "m2"]);
    assert_eq!(page_match_ids(ids.clone(), Some(10), 3), vec!["m3", "m4"]);
    assert_eq!(page_match_ids(ids.clone(), Some(-1), -4), Vec::<String>::new());
    assert_eq!(page_match_ids(ids.clone(), Some(2), 9), Vec::<String>::new());
    assert_eq!(page_match_ids(ids.clone(), None, 4), vec!["m4"]);
}

#[test]
fn history_groups_only_compare_points_within_a_match() {
    let rows = vec![
        row("far-high", "2026-01-07T00:00:00Z", false, 1, None, "SelfPlayer", 10, 0, 0, true, true, i64::MAX),
        row("far-high", "2026-01-07T00:00:00Z", false, 2, None, "Mate", 10, 0, 0, false, true, i64::MAX - 5),
        row("far-low", "2026-01-06T00:00:00Z", false, 3, None, "SelfPlayer", 10, 0, 0, true, true, -10),
        row("far-low", "2026-01-06T00:00:00Z", false, 4, None, "Mate", 10, 0, 0, false, true, 0),
    ];
    let groups = build_history_groups(&rows);
    assert_eq!(groups.len(), 2);
    assert_eq!(groups[0].battle_deltas[0].delta, 5);
    assert_eq!(groups[0].battle_deltas[1].delta, -5);
    assert_eq!(groups[1].battle_deltas[0].delta, -10);
    assert_eq!(groups[1].battle_deltas[1].delta, 10);
}

#[test]
fn checked_history_groups_refuse_a_gap_out_of_range() {
    let rows = vec![
        row("wide", "2026-01-07T00:00:00Z", false, 1, None, "SelfPlayer", 10, 0, 0, true, true, i64::MAX),
        row("wide", "2026-01-07T00:00:00Z", false, 2, None, "Mate", 10, 0, 0, false, true, -1),
    ];
    assert!(history_groups_checked(&rows).is_none());

    // The same gap with one player whose points do not count is fine.
    let rows = vec![
        row("wide", "2026-01-07T00:00:00Z", false, 1, None, "SelfPlayer", 10, 0, 0, true, true, i64::MAX),
        row("wide", "2026-01-07T00:00:00Z", false, 2, None, "Mate", 10, 0, 0, false, false, -1),
    ];
    let groups = history_groups_checked(&rows).expect("gap fits");
    assert_eq!(groups.len(), 1);
    assert_eq!(groups[0].battle_deltas[0].delta, 0);
}

#[test]
fn checked_history_groups_agree_with_the_plain_build() {
    let rows = vec![
        row("m2", "2026-01-08T00:00:00Z", false, 3, None, "SelfPlayer", 1, 0, 0, true, true, 50),
        row("m2", "2026-01-08T00:00:00Z", false, 4, Some(7), "Bravo", 1, 0, 0, false, true, 20),
        row("m1", "2026-01-07T00:00:00Z", false, 1, None, "SelfPlayer", 1, 0, 0, true, true, 100),
    ];
    let checked = history_groups_checked(&rows).expect("gap fits");
    let plain = build_history_groups(&rows);
    let ids = |gs: &Vec<pubg_point_rankings::repository::points::PointHistoryMatchGroupDto>| -> Vec<(String, Vec<i64>)> {
        gs.iter().map(|g| (g.match_id.clone(), g.battle_deltas.iter().map(|d| d.delta).collect())).collect()
    };
    assert_eq!(ids(&checked), ids(&plain));
    assert_eq!(ids(&checked), vec![("m2".to_string(), vec![30, -30]), ("m1".to_string(), vec![0])]);
}

#[test]
fn breakdown_gap_counts_only_enabled_players() {
    assert!(breakdowns_gap_fit(&vec![player(1, i64::MAX, true), player(2, 0, true)]));
    assert!(!breakdowns_gap_fit(&vec![player(1, i64::MAX, true), player(2, -1, true)]));
    assert!(breakdowns_gap_fit(&vec![player(1, i64::MAX, true), player(2, i64::MIN, false)]));
    assert!(breakdowns_gap_fit(&Vec::new()));
}

#[test]
fn unsettled_summary_fits_when_running_totals_stay_in_range() {
    let rows = vec![
        row("m1", "2026-01-07T00:00:00Z", false, 1, None, "SelfPlayer", 1, 0, 0, true, true, 100),
        row("m1", "2026-01-07T00:00:00Z", false, 2, Some(7), "Bravo", 1, 0, 0, false, true, 40),
    ];
    assert!(unsettled_summary_fits(&build_history_groups(&rows)));

    // Two matches that each give the own player the largest gap overflow its running total.
    let rows = vec![
        row("m2", "2026-01-08T00:00:00Z", false, 3, None, "SelfPlayer", 1, 0, 0, true, true, i64::MAX),
        row("m2", "2026-01-08T00:00:00Z", false, 4, Some(7), "Bravo", 1, 0, 0, false, true, 0),
        row("m1", "2026-01-07T00:00:00Z", false, 1, None, "SelfPlayer", 1, 0, 0, true, true, i64::MAX),
        row("m1", "2026-01-07T00:00:00Z", false, 2, Some(7), "Bravo", 1, 0, 0, false, true, 0),
    ];
    assert!(!unsettled_summary_fits(&build_history_groups(&rows)));
}
