//! Point calculation for the players of one match.
//!
//! Damage is held in thousandths of a hit point (`damage == 99_400` stands for 99.4), so that
//! every sum and every rounding below is exact integer arithmetic.

use vstd::prelude::*;
use crate::text::{ascii_lower_seq, concat, str_eq, to_ascii_lowercase, trim, trim_seq};

verus! {

#[derive(Debug, Clone)]
pub struct PlayerStats {
    pub pubg_account_id: String,
    pub pubg_player_name: String,
    /// Damage dealt, in thousandths.
    pub damage: i64,
    pub kills: i64,
    pub assists: i64,
    pub revives: i64,
    pub team_id: Option<i64>,
    pub placement: Option<i64>,
}

#[derive(Debug, Clone)]
pub struct CalculatedPoints {
    pub pubg_account_id: String,
    pub pubg_player_name: String,
    /// Damage dealt, in thousandths.
    pub damage: i64,
    pub kills: i64,
    pub assists: i64,
    pub revives: i64,
    pub damage_points: i64,
    pub kill_points: i64,
    pub revive_points: i64,
    pub total_points: i64,
    pub is_points_enabled: bool,
    pub team_id: Option<i64>,
    pub placement: Option<i64>,
}

#[derive(Debug, Clone)]
pub struct RuleConfig {
    pub id: i64,
    pub name: String,
    pub damage_points_per_damage: i64,
    pub kill_points: i64,
    pub revive_points: i64,
    pub rounding_mode: String,
}

/// A value clamped into the `i64` range, as a float-to-`i64` cast does.
pub open spec fn saturate_i64(x: int) -> i64 {
    if x < i64::MIN {
        i64::MIN
    } else if x > i64::MAX {
        i64::MAX
    } else {
        x as i64
    }
}

/// `i64::saturating_mul`.
pub open spec fn sat_mul(a: i64, b: i64) -> i64 {
    saturate_i64(a * b)
}

/// `x / 1000` rounded half away from zero, as `f64::round` does.
pub open spec fn round_thousandths(v: int) -> int {
    if v >= 0 {
        (v + 500) / 1000
    } else {
        -((-v + 500) / 1000)
    }
}

/// `x / 1000` rounded as the rule's rounding mode says (`floor`, `ceil`, otherwise `round`).
pub open spec fn rounded_thousandths(v: int, mode: Seq<char>) -> int {
    if mode == "floor"@ {
        v / 1000
    } else if mode == "ceil"@ {
        -((-v) / 1000)
    } else {
        round_thousandths(v)
    }
}

/// Result of `apply_rounding` on a value given in thousandths.
pub open spec fn apply_rounding_spec(v: int, mode: Seq<char>) -> i64 {
    saturate_i64(rounded_thousandths(v, mode))
}

/// The key under which a player is enabled for points: the trimmed account id when it is
/// not blank, otherwise the trimmed lower-cased player name.
pub open spec fn identity_key_spec(account_id: Seq<char>, player_name: Seq<char>) -> Seq<char> {
    let t = trim_seq(account_id);
    if t.len() > 0 {
        "account:"@ + t
    } else {
        "name:"@ + ascii_lower_seq(trim_seq(player_name))
    }
}

/// Damage points in thousandths: damage times the points per damage.
pub open spec fn damage_value(damage: i64, per_damage: i64) -> int {
    damage * per_damage
}

/// Total points of a player under a rule, when the player is enabled.
pub open spec fn total_points_spec(
    damage: i64,
    kills: i64,
    revives: i64,
    per_damage: i64,
    kill_points: i64,
    revive_points: i64,
    mode: Seq<char>,
) -> i64 {
    apply_rounding_spec(
        damage_value(damage, per_damage) + sat_mul(kills, kill_points) * 1000 + sat_mul(
            revives,
            revive_points,
        ) * 1000,
        mode,
    )
}

pub open spec fn contains_text(keys: Seq<String>, key: Seq<char>) -> bool {
    exists|i: int| 0 <= i < keys.len() && (#[trigger] keys[i])@ == key
}

/// What `calculate_points` gives for one player.
pub open spec fn calculated_for(p: PlayerStats, rule: RuleConfig, enabled: Seq<String>) -> (
    bool,
    i64,
    i64,
    i64,
    i64,
) {
    let is_enabled = contains_text(enabled, identity_key_spec(p.pubg_account_id@, p.pubg_player_name@));
    let total = if is_enabled {
        total_points_spec(
            p.damage,
            p.kills,
            p.revives,
            rule.damage_points_per_damage,
            rule.kill_points,
            rule.revive_points,
            rule.rounding_mode@,
        )
    } else {
        0
    };
    (
        is_enabled,
        apply_rounding_spec(damage_value(p.damage, rule.damage_points_per_damage), rule.rounding_mode@),
        sat_mul(p.kills, rule.kill_points),
        sat_mul(p.revives, rule.revive_points),
        total,
    )
}

/// The product of two `i64` values fits in an `i128` with room to spare.
pub proof fn lemma_i64_product_bound(a: i64, b: i64)
    ensures
        -0x4000_0000_0000_0000_0000_0000_0000_0000 <= (a as int) * (b as int)
            <= 0x4000_0000_0000_0000_0000_0000_0000_0000,
{
    assert(-0x4000_0000_0000_0000_0000_0000_0000_0000 <= (a as int) * (b as int)
        <= 0x4000_0000_0000_0000_0000_0000_0000_0000) by (nonlinear_arith)
        requires
            -0x8000_0000_0000_0000 <= a <= 0x7fff_ffff_ffff_ffff,
            -0x8000_0000_0000_0000 <= b <= 0x7fff_ffff_ffff_ffff,
    ;
}

/// `i64::saturating_mul`.
pub fn saturating_mul(a: i64, b: i64) -> (res: i64)
    ensures
        res == sat_mul(a, b),
{
    proof {
        lemma_i64_product_bound(a, b);
    }
    let wide = (a as i128) * (b as i128);
    if wide < i64::MIN as i128 {
        i64::MIN
    } else if wide > i64::MAX as i128 {
        i64::MAX
    } else {
        wide as i64
    }
}

/// Rounds a value given in thousandths to a whole number as the mode says: `floor`, `ceil`,
/// anything else rounds half away from zero. The result is clamped into `i64`.
pub fn apply_rounding(value: i128, mode: &str) -> (res: i64)
    requires
        i128::MIN + 1000 < value < i128::MAX - 1000,
    ensures
        res == apply_rounding_spec(value as int, mode@),
{
    let floor = str_eq(mode, "floor");
    let ceil = str_eq(mode, "ceil");
    let r: i128 = if floor {
        if value >= 0 {
            value / 1000
        } else {
            -((-value + 999) / 1000)
        }
    } else if ceil {
        if value >= 0 {
            (value + 999) / 1000
        } else {
            -((-value) / 1000)
        }
    } else {
        if value >= 0 {
            (value + 500) / 1000
        } else {
            -((-value + 500) / 1000)
        }
    };
    proof {
        let v = value as int;
        if floor {
            if v < 0 {
                assert(-((-v + 999) / 1000) == v / 1000) by (nonlinear_arith)
                    requires v < 0;
            }
        } else if ceil {
            if v >= 0 {
                assert((v + 999) / 1000 == -((-v) / 1000)) by (nonlinear_arith)
                    requires v >= 0;
            }
        }
    }
    if r < i64::MIN as i128 {
        i64::MIN
    } else if r > i64::MAX as i128 {
        i64::MAX
    } else {
        r as i64
    }
}

/// The total points of a player under a rule's figures (see `total_points_spec`).
pub fn total_points(
    damage: i64,
    kills: i64,
    revives: i64,
    per_damage: i64,
    kill_points: i64,
    revive_points: i64,
    mode: &str,
) -> (res: i64)
    ensures
        res == total_points_spec(damage, kills, revives, per_damage, kill_points, revive_points, mode@),
{
    proof {
        lemma_i64_product_bound(damage, per_damage);
    }
    let kill = saturating_mul(kills, kill_points);
    let revive = saturating_mul(revives, revive_points);
    apply_rounding((damage as i128) * (per_damage as i128) + (kill as i128) * 1000 + (revive as i128) * 1000, mode)
}

/// Whether the list of keys holds the given key.
pub fn contains_key(keys: &Vec<String>, key: &String) -> (res: bool)
    ensures
        res == contains_text(keys@, key@),
{
    let mut i: usize = 0;
    while i < keys.len()
        invariant
            i <= keys@.len(),
            forall|j: int| 0 <= j < i ==> (#[trigger] keys@[j])@ != key@,
        decreases keys.len() - i,
    {
        if keys[i] == *key {
            return true;
        }
        i = i + 1;
    }
    false
}

/// The identity key of a player (see `identity_key_spec`).
pub fn player_identity_key(pubg_account_id: &str, pubg_player_name: &str) -> (res: String)
    ensures
        res@ == identity_key_spec(pubg_account_id@, pubg_player_name@),
{
    let trimmed_account_id = trim(pubg_account_id);
    if !trimmed_account_id.as_str().is_empty() {
        return concat("account:", trimmed_account_id.as_str());
    }
    let name = trim(pubg_player_name);
    let lower = to_ascii_lowercase(name.as_str());
    concat("name:", lower.as_str())
}

/// The points of each player under the rule. A player whose identity key is not among the
/// enabled keys gets a total of zero; the other figures are computed all the same.
pub fn calculate_points(players: &Vec<PlayerStats>, rule: &RuleConfig, enabled_player_keys: &Vec<
    String,
>) -> (res: Vec<CalculatedPoints>)
    ensures
        res.len() == players.len(),
        forall|i: int|
            0 <= i < players.len() ==> {
                let p = #[trigger] players@[i];
                let c = res@[i];
                let spec = calculated_for(p, *rule, enabled_player_keys@);
                &&& c.pubg_account_id == p.pubg_account_id
                &&& c.pubg_player_name == p.pubg_player_name
                &&& c.damage == p.damage
                &&& c.kills == p.kills
                &&& c.assists == p.assists
                &&& c.revives == p.revives
                &&& c.team_id == p.team_id
                &&& c.placement == p.placement
                &&& c.is_points_enabled == spec.0
                &&& c.damage_points == spec.1
                &&& c.kill_points == spec.2
                &&& c.revive_points == spec.3
                &&& c.total_points == spec.4
            },
{
    let mut res: Vec<CalculatedPoints> = Vec::new();
    let mut i: usize = 0;
    while i < players.len()
        invariant
            i <= players@.len(),
            res@.len() == i,
            forall|k: int|
                0 <= k < i ==> {
                    let p = #[trigger] players@[k];
                    let c = res@[k];
                    let spec = calculated_for(p, *rule, enabled_player_keys@);
                    &&& c.pubg_account_id == p.pubg_account_id
                    &&& c.pubg_player_name == p.pubg_player_name
                    &&& c.damage == p.damage
                    &&& c.kills == p.kills
                    &&& c.assists == p.assists
                    &&& c.revives == p.revives
                    &&& c.team_id == p.team_id
                    &&& c.placement == p.placement
                    &&& c.is_points_enabled == spec.0
                    &&& c.damage_points == spec.1
                    &&& c.kill_points == spec.2
                    &&& c.revive_points == spec.3
                    &&& c.total_points == spec.4
                },
        decreases players.len() - i,
    {
        let player = &players[i];
        let key = player_identity_key(player.pubg_account_id.as_str(), player.pubg_player_name.as_str());
        let is_enabled = contains_key(enabled_player_keys, &key);
        proof {
            lemma_i64_product_bound(player.damage, rule.damage_points_per_damage);
        }
        let damage_points_value = (player.damage as i128) * (rule.damage_points_per_damage as i128);
        let damage_points = apply_rounding(damage_points_value, rule.rounding_mode.as_str());
        let kill_points = saturating_mul(player.kills, rule.kill_points);
        let revive_points = saturating_mul(player.revives, rule.revive_points);
        let total_points = if is_enabled {
            apply_rounding(
                damage_points_value + (kill_points as i128) * 1000 + (revive_points as i128) * 1000,
                rule.rounding_mode.as_str(),
            )
        } else {
            0
        };
        res.push(
            CalculatedPoints {
                pubg_account_id: player.pubg_account_id.clone(),
                pubg_player_name: player.pubg_player_name.clone(),
                damage: player.damage,
                kills: player.kills,
                assists: player.assists,
                revives: player.revives,
                damage_points,
                kill_points,
                revive_points,
                total_points,
                is_points_enabled: is_enabled,
                team_id: player.team_id,
                placement: player.placement,
            },
        );
        i = i + 1;
    }
    res
}

} // verus!
