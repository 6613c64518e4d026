//! Requests about point rules.

use vstd::prelude::*;

verus! {

#[derive(Debug, Clone)]
pub struct CreateRuleRequest {
    pub name: String,
    pub damage_points_per_damage: i64,
    pub kill_points: i64,
    pub revive_points: i64,
    pub rounding_mode: String,
}

#[derive(Debug, Clone)]
pub struct UpdateRuleRequest {
    pub id: i64,
    pub name: Option<String>,
    pub damage_points_per_damage: Option<i64>,
    pub kill_points: Option<i64>,
    pub revive_points: Option<i64>,
    pub rounding_mode: Option<String>,
}

} // verus!
