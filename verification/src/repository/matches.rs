//! Matches, their players and their telemetry records, as stored.
//!
//! Damage values are thousandths of a hit point.

use vstd::prelude::*;

verus! {

#[derive(Debug, Clone)]
pub struct MatchDto {
    pub id: i64,
    pub account_id: i64,
    pub match_id: String,
    pub platform: String,
    pub map_name: Option<String>,
    pub game_mode: Option<String>,
    pub played_at: String,
    pub match_start_at: Option<String>,
    pub match_end_at: Option<String>,
    pub telemetry_url: Option<String>,
    pub status: String,
    pub created_at: String,
    pub updated_at: String,
}

#[derive(Debug, Clone)]
pub struct MatchPlayerDto {
    pub id: i64,
    pub account_id: i64,
    pub match_id: String,
    pub teammate_id: Option<i64>,
    pub pubg_account_id: Option<String>,
    pub pubg_player_name: String,
    pub display_nickname_snapshot: Option<String>,
    pub team_id: Option<i64>,
    /// Damage in thousandths.
    pub damage: i64,
    pub kills: i64,
    pub assists: i64,
    pub revives: i64,
    pub placement: Option<i64>,
    pub is_self: bool,
    pub is_points_enabled_snapshot: bool,
    pub points: i64,
    pub created_at: String,
}

#[derive(Debug, Clone)]
pub struct MatchDamageEventDto {
    pub id: i64,
    pub account_id: i64,
    pub match_id: String,
    pub attacker_account_id: Option<String>,
    pub attacker_name: Option<String>,
    pub victim_account_id: Option<String>,
    pub victim_name: Option<String>,
    /// Damage in thousandths.
    pub damage: i64,
    pub damage_type_category: Option<String>,
    pub damage_causer_name: Option<String>,
    pub event_at: Option<String>,
    pub created_at: String,
}

#[derive(Debug, Clone)]
pub struct MatchKillEventDto {
    pub id: i64,
    pub account_id: i64,
    pub match_id: String,
    pub killer_account_id: Option<String>,
    pub killer_name: Option<String>,
    pub victim_account_id: Option<String>,
    pub victim_name: Option<String>,
    pub assistant_account_id: Option<String>,
    pub assistant_name: Option<String>,
    pub damage_type_category: Option<String>,
    pub damage_causer_name: Option<String>,
    pub event_at: Option<String>,
    pub created_at: String,
}

#[derive(Debug, Clone)]
pub struct MatchKnockEventDto {
    pub id: i64,
    pub account_id: i64,
    pub match_id: String,
    pub attacker_account_id: Option<String>,
    pub attacker_name: Option<String>,
    pub victim_account_id: Option<String>,
    pub victim_name: Option<String>,
    pub damage_type_category: Option<String>,
    pub damage_causer_name: Option<String>,
    pub event_at: Option<String>,
    pub created_at: String,
}

#[derive(Debug, Clone)]
pub struct MatchReviveEventDto {
    pub id: i64,
    pub account_id: i64,
    pub match_id: String,
    pub reviver_account_id: Option<String>,
    pub reviver_name: Option<String>,
    pub victim_account_id: Option<String>,
    pub victim_name: Option<String>,
    pub event_at: Option<String>,
    pub created_at: String,
}

#[derive(Debug, Clone)]
pub struct MatchPlayerWeaponStatDto {
    pub id: i64,
    pub account_id: i64,
    pub match_id: String,
    pub pubg_account_id: Option<String>,
    pub pubg_player_name: String,
    pub weapon_name: String,
    /// Damage in thousandths.
    pub total_damage: i64,
    pub created_at: String,
}

#[derive(Debug, Clone)]
pub struct MatchDetailDto {
    pub match_data: MatchDto,
    pub players: Vec<MatchPlayerDto>,
    pub damage_events: Vec<MatchDamageEventDto>,
    pub kill_events: Vec<MatchKillEventDto>,
    pub knock_events: Vec<MatchKnockEventDto>,
    pub revive_events: Vec<MatchReviveEventDto>,
    pub weapon_stats: Vec<MatchPlayerWeaponStatDto>,
}

#[derive(Debug, Clone)]
pub struct CreateMatchInput {
    pub match_id: String,
    pub platform: String,
    pub map_name: Option<String>,
    pub game_mode: Option<String>,
    pub played_at: String,
    pub match_start_at: Option<String>,
    pub match_end_at: Option<String>,
    pub telemetry_url: Option<String>,
    pub status: String,
}

#[derive(Debug, Clone)]
pub struct CreateMatchPlayerInput {
    pub match_id: String,
    pub teammate_id: Option<i64>,
    pub pubg_account_id: Option<String>,
    pub pubg_player_name: String,
    pub display_nickname_snapshot: Option<String>,
    pub team_id: Option<i64>,
    /// Damage in thousandths.
    pub damage: i64,
    pub kills: i64,
    pub assists: i64,
    pub revives: i64,
    pub placement: Option<i64>,
    pub is_self: bool,
    pub is_points_enabled_snapshot: bool,
    pub points: i64,
}

#[derive(Debug, Clone)]
pub struct CreateMatchDamageEventInput {
    pub match_id: String,
    pub attacker_account_id: Option<String>,
    pub attacker_name: Option<String>,
    pub victim_account_id: Option<String>,
    pub victim_name: Option<String>,
    /// Damage in thousandths.
    pub damage: i64,
    pub damage_type_category: Option<String>,
    pub damage_causer_name: Option<String>,
    pub event_at: Option<String>,
}

#[derive(Debug, Clone)]
pub struct CreateMatchKillEventInput {
    pub match_id: String,
    pub killer_account_id: Option<String>,
    pub killer_name: Option<String>,
    pub victim_account_id: Option<String>,
    pub victim_name: Option<String>,
    pub assistant_account_id: Option<String>,
    pub assistant_name: Option<String>,
    pub damage_type_category: Option<String>,
    pub damage_causer_name: Option<String>,
    pub event_at: Option<String>,
}

#[derive(Debug, Clone)]
pub struct CreateMatchKnockEventInput {
    pub match_id: String,
    pub attacker_account_id: Option<String>,
    pub attacker_name: Option<String>,
    pub victim_account_id: Option<String>,
    pub victim_name: Option<String>,
    pub damage_type_category: Option<String>,
    pub damage_causer_name: Option<String>,
    pub event_at: Option<String>,
}

#[derive(Debug, Clone)]
pub struct CreateMatchReviveEventInput {
    pub match_id: String,
    pub reviver_account_id: Option<String>,
    pub reviver_name: Option<String>,
    pub victim_account_id: Option<String>,
    pub victim_name: Option<String>,
    pub event_at: Option<String>,
}

#[derive(Debug, Clone)]
pub struct CreateMatchPlayerWeaponStatInput {
    pub match_id: String,
    pub pubg_account_id: Option<String>,
    pub pubg_player_name: String,
    pub weapon_name: String,
    /// Damage in thousandths.
    pub total_damage: i64,
}

} // verus!
