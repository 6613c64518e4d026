//! Recomputing stored points: after the account's own player name or the teammates' point
//! flags changed, and when the unsettled matches move to another rule.
//!
//! Damage values are thousandths of a hit point.

use vstd::prelude::*;
use crate::engine::calculator::{total_points, total_points_spec};
use crate::error::{app_error, AppError};
use crate::parser::telemetry::{first_where, lemma_first_where};
use crate::repository::points::{
    PointHistoryMatchGroupDto, PointHistoryPlayerBreakdownDto, RecalculateUnsettledPointsResultDto,
};
use crate::repository::rules::PointRuleDto;
use crate::text::{ascii_lower_seq, eq_ignore_ascii_case, str_eq};

verus! {

/// A stored player of a match with its point record.
#[derive(Debug, Clone)]
pub struct RepairRow {
    pub match_id: String,
    pub match_player_id: i64,
    pub teammate_id: Option<i64>,
    pub pubg_player_name: String,
    pub team_id: Option<i64>,
    pub damage: i64,
    pub kills: i64,
    pub revives: i64,
    pub damage_points_per_damage_snapshot: i64,
    pub kill_points_snapshot: i64,
    pub revive_points_snapshot: i64,
    pub rounding_mode_snapshot: String,
    pub match_player_points: i64,
    pub point_record_points: i64,
    pub is_self: bool,
    pub is_points_enabled_snapshot: bool,
}

/// Whether a teammate's points count.
#[derive(Debug, Clone)]
pub struct TeammatePointsFlag {
    pub teammate_id: i64,
    pub is_points_enabled: bool,
}

/// New values for a stored player and its point record.
#[derive(Debug, Clone)]
pub struct PlayerPointsRepair {
    pub match_player_id: i64,
    pub is_self: bool,
    pub is_points_enabled_snapshot: bool,
    pub total_points: i64,
}

/// The players to rewrite and the number of matches looked at.
#[derive(Debug, Clone)]
pub struct PointRepairPlan {
    pub repairs: Vec<PlayerPointsRepair>,
    pub repaired_match_count: i64,
}

pub open spec fn is_self_name(name: Seq<char>, self_name: Seq<char>) -> bool {
    ascii_lower_seq(name) == ascii_lower_seq(self_name)
}

/// The index of the last of the first `n` rows that is the account's own player in the
/// given match, or -1.
pub open spec fn last_self_row(rows: Seq<RepairRow>, self_name: Seq<char>, match_id: Seq<char>, n: int) -> int
    decreases n,
{
    if n <= 0 {
        -1
    } else if rows[n - 1].match_id@ == match_id && is_self_name(rows[n - 1].pubg_player_name@, self_name) {
        n - 1
    } else {
        last_self_row(rows, self_name, match_id, n - 1)
    }
}

/// The team of the account's own player in a match (its last row when there are several).
pub open spec fn self_team_in(rows: Seq<RepairRow>, self_name: Seq<char>, match_id: Seq<char>) -> Option<i64> {
    let k = last_self_row(rows, self_name, match_id, rows.len() as int);
    if k < 0 {
        None
    } else {
        rows[k].team_id
    }
}

pub open spec fn flag_for(t: i64) -> spec_fn(TeammatePointsFlag) -> bool {
    |f: TeammatePointsFlag| f.teammate_id == t
}

/// Whether a teammate's points count; players without a teammate record count.
pub open spec fn teammate_enabled(flags: Seq<TeammatePointsFlag>, t: Option<i64>) -> bool {
    match t {
        None => true,
        Some(id) => {
            let k = first_where(flags, flag_for(id));
            if k >= 0 {
                flags[k].is_points_enabled
            } else {
                true
            }
        },
    }
}

/// What row `i` should hold: whether it is the account's own player, whether its points
/// count (its own, or a same-team teammate whose points are enabled), and its total.
pub open spec fn repaired_row(
    rows: Seq<RepairRow>,
    i: int,
    self_name: Seq<char>,
    flags: Seq<TeammatePointsFlag>,
) -> PlayerPointsRepair {
    let r = rows[i];
    let is_self = is_self_name(r.pubg_player_name@, self_name);
    let st = self_team_in(rows, self_name, r.match_id@);
    let same_team = st is Some && r.team_id == st;
    let enabled = is_self || (same_team && teammate_enabled(flags, r.teammate_id));
    PlayerPointsRepair {
        match_player_id: r.match_player_id,
        is_self,
        is_points_enabled_snapshot: enabled,
        total_points: if enabled {
            total_points_spec(
                r.damage,
                r.kills,
                r.revives,
                r.damage_points_per_damage_snapshot,
                r.kill_points_snapshot,
                r.revive_points_snapshot,
                r.rounding_mode_snapshot@,
            )
        } else {
            0
        },
    }
}

pub open spec fn needs_repair(r: RepairRow, fix: PlayerPointsRepair) -> bool {
    fix.total_points != r.match_player_points || fix.total_points != r.point_record_points
        || fix.is_self != r.is_self || fix.is_points_enabled_snapshot != r.is_points_enabled_snapshot
}

/// The repairs among the first `n` rows, in row order.
pub open spec fn repairs_upto(
    rows: Seq<RepairRow>,
    self_name: Seq<char>,
    flags: Seq<TeammatePointsFlag>,
    n: int,
) -> Seq<PlayerPointsRepair>
    decreases n,
{
    if n <= 0 {
        Seq::empty()
    } else {
        let prev = repairs_upto(rows, self_name, flags, n - 1);
        let fix = repaired_row(rows, n - 1, self_name, flags);
        if needs_repair(rows[n - 1], fix) {
            prev.push(fix)
        } else {
            prev
        }
    }
}

/// The number of distinct match ids among the first `n` rows.
pub open spec fn distinct_matches(rows: Seq<RepairRow>, n: int) -> int
    decreases n,
{
    if n <= 0 {
        0
    } else {
        distinct_matches(rows, n - 1) + if exists|j: int| 0 <= j < n - 1 && #[trigger] rows[j].match_id@ == rows[n - 1].match_id@ {
            0int
        } else {
            1int
        }
    }
}

fn self_team_of(rows: &Vec<RepairRow>, self_player_name: &str, match_id: &str) -> (res: Option<i64>)
    ensures
        res == self_team_in(rows@, self_player_name@, match_id@),
{
    let mut n: usize = rows.len();
    while n > 0
        invariant
            n <= rows@.len(),
            last_self_row(rows@, self_player_name@, match_id@, rows@.len() as int)
                == last_self_row(rows@, self_player_name@, match_id@, n as int),
        decreases n,
    {
        let r = &rows[n - 1];
        if str_eq(r.match_id.as_str(), match_id) && eq_ignore_ascii_case(r.pubg_player_name.as_str(), self_player_name) {
            return r.team_id;
        }
        n = n - 1;
    }
    None
}

fn flag_of(flags: &Vec<TeammatePointsFlag>, teammate_id: Option<i64>) -> (res: bool)
    ensures
        res == teammate_enabled(flags@, teammate_id),
{
    match teammate_id {
        None => true,
        Some(t) => {
            let mut k: usize = 0;
            while k < flags.len()
                invariant
                    k <= flags@.len(),
                    teammate_id == Some(t),
                    forall|j: int| 0 <= j < k ==> !flag_for(t)(#[trigger] flags@[j]),
                decreases flags.len() - k,
            {
                if flags[k].teammate_id == t {
                    proof {
                        lemma_first_where(flags@, flag_for(t), k as int);
                    }
                    return flags[k].is_points_enabled;
                }
                k = k + 1;
            }
            proof {
                lemma_first_where(flags@, flag_for(t), k as int);
            }
            true
        },
    }
}

fn seen_before(rows: &Vec<RepairRow>, i: usize) -> (res: bool)
    requires
        i < rows@.len(),
    ensures
        res == exists|j: int| 0 <= j < i && #[trigger] rows@[j].match_id@ == rows@[i as int].match_id@,
{
    let mut j: usize = 0;
    while j < i
        invariant
            i < rows@.len(),
            j <= i,
            forall|k: int| 0 <= k < j ==> #[trigger] rows@[k].match_id@ != rows@[i as int].match_id@,
        decreases i - j,
    {
        if str_eq(rows[j].match_id.as_str(), rows[i].match_id.as_str()) {
            return true;
        }
        j = j + 1;
    }
    false
}

/// What to rewrite so that the stored points agree with the account's own player name and
/// the teammates' point flags: the rows that differ from `repaired_row`, in order, and the
/// number of distinct matches among the rows.
pub fn plan_point_repairs(rows: &Vec<RepairRow>, self_player_name: &str, flags: &Vec<TeammatePointsFlag>) -> (res: PointRepairPlan)
    requires
        rows@.len() <= i64::MAX,
    ensures
        res.repairs@ == repairs_upto(rows@, self_player_name@, flags@, rows@.len() as int),
        res.repaired_match_count == distinct_matches(rows@, rows@.len() as int),
{
    let mut repairs: Vec<PlayerPointsRepair> = Vec::new();
    let mut count: i64 = 0;
    let mut i: usize = 0;
    while i < rows.len()
        invariant
            i <= rows@.len(),
            rows@.len() <= i64::MAX,
            repairs@ == repairs_upto(rows@, self_player_name@, flags@, i as int),
            count == distinct_matches(rows@, i as int),
            0 <= count <= i,
        decreases rows.len() - i,
    {
        let r = &rows[i];
        let is_self = eq_ignore_ascii_case(r.pubg_player_name.as_str(), self_player_name);
        let self_team = self_team_of(rows, self_player_name, r.match_id.as_str());
        let same_team = self_team.is_some() && r.team_id == self_team;
        let enabled = is_self || (same_team && flag_of(flags, r.teammate_id));
        let total = if enabled {
            total_points(
                r.damage,
                r.kills,
                r.revives,
                r.damage_points_per_damage_snapshot,
                r.kill_points_snapshot,
                r.revive_points_snapshot,
                r.rounding_mode_snapshot.as_str(),
            )
        } else {
            0
        };
        let fix = PlayerPointsRepair {
            match_player_id: r.match_player_id,
            is_self,
            is_points_enabled_snapshot: enabled,
            total_points: total,
        };
        assert(fix == repaired_row(rows@, i as int, self_player_name@, flags@));
        if total != r.match_player_points || total != r.point_record_points || is_self != r.is_self
            || enabled != r.is_points_enabled_snapshot {
            repairs.push(fix);
        }
        if !seen_before(rows, i) {
            count = count + 1;
        }
        i = i + 1;
    }
    PointRepairPlan { repairs, repaired_match_count: count }
}

/// New total of a stored player.
#[derive(Debug, Clone)]
pub struct RecalculatedPoints {
    pub match_player_id: i64,
    pub total_points: i64,
}

/// The new totals of the unsettled players, the teammates whose sums change (each once, in
/// order of first appearance), and the answer to give.
#[derive(Debug, Clone)]
pub struct PointRecalculation {
    pub updates: Vec<RecalculatedPoints>,
    pub teammate_ids: Vec<i64>,
    pub result: RecalculateUnsettledPointsResultDto,
}

/// The players of the groups, group after group.
pub open spec fn all_players(groups: Seq<PointHistoryMatchGroupDto>, g: int) -> Seq<PointHistoryPlayerBreakdownDto>
    decreases g,
{
    if g <= 0 {
        Seq::empty()
    } else {
        all_players(groups, g - 1) + groups[g - 1].players@
    }
}

/// A player's total under the rule (zero when the player's points do not count).
pub open spec fn recalculated(p: PointHistoryPlayerBreakdownDto, rule: PointRuleDto) -> RecalculatedPoints {
    RecalculatedPoints {
        match_player_id: p.match_player_id,
        total_points: if p.is_points_enabled_snapshot {
            total_points_spec(
                p.damage,
                p.kills,
                p.revives,
                rule.damage_points_per_damage,
                rule.kill_points,
                rule.revive_points,
                rule.rounding_mode@,
            )
        } else {
            0
        },
    }
}

/// Recalculating under a rule zeroes the players whose points do not count: the update of
/// every player of the unsettled groups (as `plan_unsettled_recalculation` lists them) names
/// that player, and its total is zero when the player's points are disabled and the rule's
/// total for the player's damage, kills and revives when they are enabled.
pub proof fn law_recalculation_zeroes_disabled_players(groups: Seq<PointHistoryMatchGroupDto>, rule: PointRuleDto, i: int)
    requires
        0 <= i < all_players(groups, groups.len() as int).len(),
    ensures
        ({
            let p = all_players(groups, groups.len() as int)[i];
            let u = all_players(groups, groups.len() as int).map_values(|q: PointHistoryPlayerBreakdownDto| recalculated(q, rule))[i];
            &&& u.match_player_id == p.match_player_id
            &&& !p.is_points_enabled_snapshot ==> u.total_points == 0
            &&& p.is_points_enabled_snapshot ==> u.total_points == total_points_spec(
                p.damage,
                p.kills,
                p.revives,
                rule.damage_points_per_damage,
                rule.kill_points,
                rule.revive_points,
                rule.rounding_mode@,
            )
        }),
{
}

/// The teammate ids of the players, each once, in order of first appearance.
pub open spec fn distinct_teammates(ps: Seq<PointHistoryPlayerBreakdownDto>) -> Seq<i64>
    decreases ps.len(),
{
    if ps.len() == 0 {
        Seq::empty()
    } else {
        let prev = distinct_teammates(ps.drop_last());
        match ps.last().teammate_id {
            Some(t) => if prev.contains(t) {
                prev
            } else {
                prev.push(t)
            },
            None => prev,
        }
    }
}

/// Moving the unsettled match groups to a rule: fails with "Rule not found" when there is no
/// such rule; otherwise every player of every group gets its total under the rule.
pub fn plan_unsettled_recalculation(rule: Option<PointRuleDto>, groups: &Vec<PointHistoryMatchGroupDto>) -> (res: Result<PointRecalculation, AppError>)
    requires
        groups@.len() <= i64::MAX,
    ensures
        rule is None <==> res is Err,
        res matches Err(AppError::Message(m)) ==> m@ == "Rule not found"@,
        rule matches Some(r) ==> res matches Ok(plan) && {
            let ps = all_players(groups@, groups@.len() as int);
            &&& plan.updates@ == ps.map_values(|p: PointHistoryPlayerBreakdownDto| recalculated(p, r))
            &&& plan.teammate_ids@ == distinct_teammates(ps)
            &&& plan.result.rule_id == r.id
            &&& plan.result.rule_name@ == r.name@
            &&& plan.result.recalculated_match_count == groups@.len()
        },
{
    let rule = match rule {
        Some(r) => r,
        None => {
            return Err(app_error("Rule not found"));
        },
    };
    let mut updates: Vec<RecalculatedPoints> = Vec::new();
    let mut teammate_ids: Vec<i64> = Vec::new();
    let mut g: usize = 0;
    while g < groups.len()
        invariant
            g <= groups@.len(),
            updates@ == all_players(groups@, g as int).map_values(|p: PointHistoryPlayerBreakdownDto| recalculated(p, rule)),
            teammate_ids@ == distinct_teammates(all_players(groups@, g as int)),
        decreases groups.len() - g,
    {
        let players = &groups[g].players;
        let ghost base = all_players(groups@, g as int);
        let mut k: usize = 0;
        while k < players.len()
            invariant
                g < groups@.len(),
                *players == groups@[g as int].players,
                k <= players@.len(),
                base == all_players(groups@, g as int),
                updates@ == (base + players@.take(k as int)).map_values(|p: PointHistoryPlayerBreakdownDto| recalculated(p, rule)),
                teammate_ids@ == distinct_teammates(base + players@.take(k as int)),
            decreases players.len() - k,
        {
            let p = &players[k];
            let total = if p.is_points_enabled_snapshot {
                total_points(
                    p.damage,
                    p.kills,
                    p.revives,
                    rule.damage_points_per_damage,
                    rule.kill_points,
                    rule.revive_points,
                    rule.rounding_mode.as_str(),
                )
            } else {
                0
            };
            let ghost before = base + players@.take(k as int);
            let ghost after = base + players@.take(k + 1);
            assert(after =~= before.push(*p));
            assert(after.drop_last() =~= before);
            updates.push(RecalculatedPoints { match_player_id: p.match_player_id, total_points: total });
            proof {
                assert(updates@ =~= after.map_values(|p: PointHistoryPlayerBreakdownDto| recalculated(p, rule)));
            }
            match p.teammate_id {
                Some(t) => {
                    let mut seen = false;
                    let mut j: usize = 0;
                    while j < teammate_ids.len()
                        invariant
                            j <= teammate_ids@.len(),
                            seen == exists|q: int| 0 <= q < j && teammate_ids@[q] == t,
                        decreases teammate_ids.len() - j,
                    {
                        if teammate_ids[j] == t {
                            seen = true;
                        }
                        j = j + 1;
                    }
                    if !seen {
                        teammate_ids.push(t);
                    }
                },
                None => {},
            }
            k = k + 1;
        }
        proof {
            assert(players@.take(players@.len() as int) =~= players@);
        }
        g = g + 1;
    }
    let count = groups.len() as i64;
    let result = RecalculateUnsettledPointsResultDto { rule_id: rule.id, rule_name: rule.name, recalculated_match_count: count };
    Ok(PointRecalculation { updates, teammate_ids, result })
}

// ----- repairing twice -------------------------------------------------------------------

/// The rows with what `repaired_row` says they should hold.
pub open spec fn repaired_rows(rows: Seq<RepairRow>, self_name: Seq<char>, flags: Seq<TeammatePointsFlag>) -> Seq<RepairRow> {
    Seq::new(
        rows.len(),
        |i: int|
            {
                let f = repaired_row(rows, i, self_name, flags);
                RepairRow {
                    is_self: f.is_self,
                    is_points_enabled_snapshot: f.is_points_enabled_snapshot,
                    match_player_points: f.total_points,
                    point_record_points: f.total_points,
                    ..rows[i]
                }
            },
    )
}

proof fn lemma_last_self_row_same(rows: Seq<RepairRow>, other: Seq<RepairRow>, self_name: Seq<char>, match_id: Seq<char>, n: int)
    requires
        0 <= n <= rows.len(),
        other.len() == rows.len(),
        forall|i: int| 0 <= i < rows.len() ==> (#[trigger] other[i]).match_id == rows[i].match_id
            && other[i].pubg_player_name == rows[i].pubg_player_name,
    ensures
        last_self_row(other, self_name, match_id, n) == last_self_row(rows, self_name, match_id, n),
    decreases n,
{
    if n > 0 {
        assert(other[n - 1].match_id == rows[n - 1].match_id);
        lemma_last_self_row_same(rows, other, self_name, match_id, n - 1);
    }
}

proof fn lemma_last_self_row_range(rows: Seq<RepairRow>, self_name: Seq<char>, match_id: Seq<char>, n: int)
    requires
        0 <= n <= rows.len(),
    ensures
        -1 <= last_self_row(rows, self_name, match_id, n) < n,
    decreases n,
{
    if n > 0 {
        lemma_last_self_row_range(rows, self_name, match_id, n - 1);
    }
}

proof fn lemma_repairs_none(rows: Seq<RepairRow>, self_name: Seq<char>, flags: Seq<TeammatePointsFlag>, n: int)
    requires
        0 <= n <= rows.len(),
        forall|i: int| 0 <= i < rows.len() ==> !needs_repair(#[trigger] rows[i], repaired_row(rows, i, self_name, flags)),
    ensures
        repairs_upto(rows, self_name, flags, n) == Seq::<PlayerPointsRepair>::empty(),
    decreases n,
{
    if n > 0 {
        assert(!needs_repair(rows[n - 1], repaired_row(rows, n - 1, self_name, flags)));
        lemma_repairs_none(rows, self_name, flags, n - 1);
    }
}

/// Repairing is idempotent: once every row holds what `repaired_row` says, planning again
/// finds nothing to repair.
pub proof fn law_repair_is_idempotent(rows: Seq<RepairRow>, self_name: Seq<char>, flags: Seq<TeammatePointsFlag>)
    ensures
        repairs_upto(repaired_rows(rows, self_name, flags), self_name, flags, rows.len() as int)
            == Seq::<PlayerPointsRepair>::empty(),
{
    let rr = repaired_rows(rows, self_name, flags);
    assert forall|i: int| 0 <= i < rr.len() implies !needs_repair(#[trigger] rr[i], repaired_row(rr, i, self_name, flags)) by {
        assert forall|q: int| 0 <= q < rows.len() implies (#[trigger] rr[q]).match_id == rows[q].match_id
            && rr[q].pubg_player_name == rows[q].pubg_player_name by {}
        lemma_last_self_row_same(rows, rr, self_name, rows[i].match_id@, rows.len() as int);
        let k = last_self_row(rows, self_name, rows[i].match_id@, rows.len() as int);
        lemma_last_self_row_range(rows, self_name, rows[i].match_id@, rows.len() as int);
        if k >= 0 {
            assert(rr[k].team_id == rows[k].team_id);
        }
        assert(self_team_in(rr, self_name, rr[i].match_id@) == self_team_in(rows, self_name, rows[i].match_id@));
        assert(repaired_row(rr, i, self_name, flags) == repaired_row(rows, i, self_name, flags));
    }
    lemma_repairs_none(rr, self_name, flags, rr.len() as int);
}

} // verus!
