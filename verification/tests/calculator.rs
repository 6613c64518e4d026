use pubg_point_rankings::engine::calculator::{apply_rounding, calculate_points, player_identity_key, PlayerStats, RuleConfig};

// Values given to `apply_rounding` are thousandths: 1.2 is 1_200. Damage is in thousandths.

fn rule() -> RuleConfig {
    RuleConfig {
        id: 1,
        name: "default".to_string(),
        damage_points_per_damage: 2,
        kill_points: 300,
        revive_points: 150,
        rounding_mode: "round".to_string(),
    }
}

fn one(account_id: &str, name: &str) -> Vec<PlayerStats> {
    vec![PlayerStats {
        pubg_account_id: account_id.to_string(),
        pubg_player_name: name.to_string(),
        damage: 100_000,
        kills: 2,
        assists: 1,
        revives: 1,
        team_id: Some(1),
        placement: Some(1),
    }]
}

#[test]
fn applies_rounding_modes() {
    assert_eq!(apply_rounding(1_200, "floor"), 1);
    assert_eq!(apply_rounding(1_200, "round"), 1);
    assert_eq!(apply_rounding(1_800, "round"), 2);
    assert_eq!(apply_rounding(1_200, "ceil"), 2);
}

#[test]
fn disables_points_for_non_enabled_players() {
    let players = one("account.one", "one");
    let enabled: Vec<String> = Vec::new();
    let calculated = calculate_points(&players, &rule(), &enabled);
    assert_eq!(calculated.len(), 1);
    assert_eq!(calculated[0].total_points, 0);
}

#[test]
fn enables_points_when_account_identity_key_matches() {
    let players = one("account.one", "one");
    let enabled = vec!["account:account.one".to_string()];
    let calculated = calculate_points(&players, &rule(), &enabled);

    assert_eq!(calculated.len(), 1);
    assert!(calculated[0].is_points_enabled);
    assert_eq!(calculated[0].total_points, 950);
}

#[test]
fn enables_points_when_name_identity_key_matches_without_account_id() {
    let players = one("", "One");
    let enabled = vec!["name:one".to_string()];
    let calculated = calculate_points(&players, &rule(), &enabled);

    assert_eq!(calculated.len(), 1);
    assert!(calculated[0].is_points_enabled);
    assert_eq!(calculated[0].total_points, 950);
}

#[test]
fn rounding_of_negative_values_and_halves() {
    assert_eq!(apply_rounding(-1_200, "floor"), -2);
    assert_eq!(apply_rounding(-1_200, "ceil"), -1);
    assert_eq!(apply_rounding(2_500, "round"), 3);
    assert_eq!(apply_rounding(-2_500, "round"), -3);
    assert_eq!(apply_rounding(2_500, "anything"), 3);
}

#[test]
fn identity_keys_prefer_trimmed_account_ids() {
    assert_eq!(player_identity_key("  acc  ", "Name"), "account:acc");
    assert_eq!(player_identity_key("   ", "  MiXed "), "name:mixed");
}

#[test]
fn breakdown_figures_are_computed_for_disabled_players_too() {
    let players = one("account.one", "one");
    let calculated = calculate_points(&players, &rule(), &Vec::new());
    assert_eq!(calculated[0].damage_points, 200);
    assert_eq!(calculated[0].kill_points, 600);
    assert_eq!(calculated[0].revive_points, 150);
    assert!(!calculated[0].is_points_enabled);
}
