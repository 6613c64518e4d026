//! Point rules as stored.

use vstd::prelude::*;

verus! {

#[derive(Debug, Clone)]
pub struct PointRuleDto {
    pub id: i64,
    pub account_id: i64,
    pub name: String,
    pub damage_points_per_damage: i64,
    pub kill_points: i64,
    pub revive_points: i64,
    pub is_active: bool,
    pub rounding_mode: String,
    pub created_at: String,
    pub updated_at: String,
}

#[derive(Debug, Clone)]
pub struct CreatePointRuleInput {
    pub name: String,
    pub damage_points_per_damage: i64,
    pub kill_points: i64,
    pub revive_points: i64,
    pub rounding_mode: String,
}

#[derive(Debug, Clone)]
pub struct UpdatePointRuleInput {
    pub id: i64,
    pub name: Option<String>,
    pub damage_points_per_damage: Option<i64>,
    pub kill_points: Option<i64>,
    pub revive_points: Option<i64>,
    pub rounding_mode: Option<String>,
}

} // verus!
