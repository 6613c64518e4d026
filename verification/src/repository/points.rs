//! Point records, per-match history groups and the zero-sum battle between teammates.
//!
//! Damage values are thousandths of a hit point.

use vstd::prelude::*;
use crate::engine::calculator::{apply_rounding, apply_rounding_spec, damage_value, lemma_i64_product_bound, sat_mul, saturating_mul};
use crate::parser::telemetry::{first_where, lemma_first_where, lemma_first_where_facts, lemma_first_where_push, lemma_first_where_update};
use crate::text::{opt_text, str_eq};

verus! {

#[derive(Debug, Clone)]
pub struct PointRecordDto {
    pub id: i64,
    pub account_id: i64,
    pub match_id: String,
    pub match_player_id: i64,
    pub teammate_id: Option<i64>,
    pub rule_id: i64,
    pub rule_name_snapshot: String,
    pub damage_points_per_damage_snapshot: i64,
    pub kill_points_snapshot: i64,
    pub revive_points_snapshot: i64,
    pub rounding_mode_snapshot: String,
    pub points: i64,
    pub note: Option<String>,
    pub created_at: String,
}

#[derive(Debug, Clone)]
pub struct CreatePointRecordInput {
    pub match_id: String,
    pub match_player_id: i64,
    pub teammate_id: Option<i64>,
    pub rule_id: i64,
    pub rule_name_snapshot: String,
    pub damage_points_per_damage_snapshot: i64,
    pub kill_points_snapshot: i64,
    pub revive_points_snapshot: i64,
    pub rounding_mode_snapshot: String,
    pub points: i64,
    pub note: Option<String>,
}

#[derive(Debug, Clone)]
pub struct PointHistoryPlayerBreakdownDto {
    pub match_player_id: i64,
    pub teammate_id: Option<i64>,
    pub pubg_account_id: Option<String>,
    pub pubg_player_name: String,
    pub display_nickname_snapshot: Option<String>,
    pub is_self: bool,
    pub is_points_enabled_snapshot: bool,
    /// Damage in thousandths.
    pub damage: i64,
    pub kills: i64,
    pub revives: i64,
    pub damage_points_per_damage_snapshot: i64,
    pub kill_points_snapshot: i64,
    pub revive_points_snapshot: i64,
    pub damage_points: i64,
    pub kill_points: i64,
    pub revive_points: i64,
    pub total_points: i64,
}

#[derive(Debug, Clone)]
pub struct PointBattleDeltaDto {
    pub match_player_id: i64,
    pub teammate_id: Option<i64>,
    pub pubg_player_name: String,
    pub display_nickname_snapshot: Option<String>,
    pub delta: i64,
}

#[derive(Debug, Clone)]
pub struct PointHistoryMatchGroupDto {
    pub item_type: String,
    pub match_id: String,
    pub played_at: String,
    pub map_name: Option<String>,
    pub game_mode: Option<String>,
    pub rule_id: i64,
    pub rule_name_snapshot: String,
    pub is_settled: bool,
    pub settled_at: Option<String>,
    pub settlement_batch_id: Option<i64>,
    pub note: Option<String>,
    pub players: Vec<PointHistoryPlayerBreakdownDto>,
    pub battle_deltas: Vec<PointBattleDeltaDto>,
}

#[derive(Debug, Clone)]
pub struct PointHistoryRuleChangeMarkerDto {
    pub item_type: String,
    pub previous_rule_name: String,
    pub next_rule_name: String,
    pub created_at: String,
}

#[derive(Debug, Clone)]
pub enum PointHistoryListItemDto {
    MatchGroup(PointHistoryMatchGroupDto),
    RuleChangeMarker(PointHistoryRuleChangeMarkerDto),
}

#[derive(Debug, Clone)]
pub struct UnsettledPlayerSummaryDto {
    pub teammate_id: Option<i64>,
    pub pubg_player_name: String,
    pub display_nickname: Option<String>,
    pub is_self: bool,
    pub total_delta: i64,
}

#[derive(Debug, Clone)]
pub struct UnsettledBattleSummaryDto {
    pub rule_id: Option<i64>,
    pub active_rule_name: Option<String>,
    pub unsettled_match_count: i64,
    pub players: Vec<UnsettledPlayerSummaryDto>,
}

#[derive(Debug, Clone)]
pub struct RecalculateUnsettledPointsResultDto {
    pub rule_id: i64,
    pub rule_name: String,
    pub recalculated_match_count: i64,
}

// ----- the battle between teammates ------------------------------------------------------

/// Whether (t1, id1) beats (t2, id2): a higher (or, for the lowest, lower) total, ties going
/// to the smaller match-player id.
pub open spec fn beats(t1: i64, id1: i64, t2: i64, id2: i64, highest: bool) -> bool {
    if highest {
        t1 > t2 || (t1 == t2 && id1 < id2)
    } else {
        t1 < t2 || (t1 == t2 && id1 < id2)
    }
}

/// The (total, match-player id) of the enabled player with the highest (or lowest) total,
/// ties to the smaller id; `None` when nobody is enabled.
pub open spec fn extreme(ps: Seq<PointHistoryPlayerBreakdownDto>, highest: bool) -> Option<(i64, i64)>
    decreases ps.len(),
{
    if ps.len() == 0 {
        None
    } else {
        let r = extreme(ps.drop_last(), highest);
        let p = ps.last();
        if !p.is_points_enabled_snapshot {
            r
        } else {
            match r {
                None => Some((p.total_points, p.match_player_id)),
                Some((t, id)) => if beats(p.total_points, p.match_player_id, t, id, highest) {
                    Some((p.total_points, p.match_player_id))
                } else {
                    r
                },
            }
        }
    }
}

pub open spec fn enabled_count(ps: Seq<PointHistoryPlayerBreakdownDto>) -> nat
    decreases ps.len(),
{
    if ps.len() == 0 {
        0
    } else {
        enabled_count(ps.drop_last()) + if ps.last().is_points_enabled_snapshot {
            1nat
        } else {
            0nat
        }
    }
}

/// The gap between the highest and the lowest enabled total.
pub open spec fn battle_gap(ps: Seq<PointHistoryPlayerBreakdownDto>) -> int {
    extreme(ps, true).unwrap().0 - extreme(ps, false).unwrap().0
}

/// A player's share of the battle: with at least two enabled players and a nonzero gap, the
/// highest takes the gap and the lowest gives it; everybody else gets zero.
pub open spec fn battle_delta(ps: Seq<PointHistoryPlayerBreakdownDto>, match_player_id: i64) -> int {
    if enabled_count(ps) < 2 || battle_gap(ps) == 0 {
        0
    } else if match_player_id == extreme(ps, true).unwrap().1 {
        battle_gap(ps)
    } else if match_player_id == extreme(ps, false).unwrap().1 {
        -battle_gap(ps)
    } else {
        0
    }
}

pub open spec fn gap_fits(ps: Seq<PointHistoryPlayerBreakdownDto>) -> bool {
    forall|i: int, j: int|
        0 <= i < ps.len() && 0 <= j < ps.len() && ps[i].is_points_enabled_snapshot && ps[j].is_points_enabled_snapshot
            ==> (#[trigger] ps[i]).total_points - (#[trigger] ps[j]).total_points <= i64::MAX
}

/// What `extreme` picks is an enabled player, at least (or at most) every enabled total.
pub proof fn lemma_extreme_facts(ps: Seq<PointHistoryPlayerBreakdownDto>, highest: bool)
    ensures
        extreme(ps, highest) is Some <==> enabled_count(ps) > 0,
        forall|k: int| 0 <= k < ps.len() && (#[trigger] ps[k]).is_points_enabled_snapshot ==> extreme(ps, highest) is Some,
        extreme(ps, highest) is Some ==> exists|k: int|
            0 <= k < ps.len() && (#[trigger] ps[k]).is_points_enabled_snapshot
                && ps[k].total_points == extreme(ps, highest).unwrap().0
                && ps[k].match_player_id == extreme(ps, highest).unwrap().1,
        forall|k: int|
            0 <= k < ps.len() && (#[trigger] ps[k]).is_points_enabled_snapshot ==> if highest {
                ps[k].total_points <= extreme(ps, highest).unwrap().0
            } else {
                ps[k].total_points >= extreme(ps, highest).unwrap().0
            },
    decreases ps.len(),
{
    if ps.len() > 0 {
        let q = ps.drop_last();
        lemma_extreme_facts(q, highest);
        assert forall|k: int| 0 <= k < q.len() implies #[trigger] q[k] == ps[k] by {}
        if extreme(q, highest) is Some && extreme(ps, highest) == extreme(q, highest) {
            let k = choose|k: int|
                0 <= k < q.len() && (#[trigger] q[k]).is_points_enabled_snapshot
                    && q[k].total_points == extreme(q, highest).unwrap().0
                    && q[k].match_player_id == extreme(q, highest).unwrap().1;
            assert(ps[k] == q[k]);
        }
        if extreme(ps, highest) is Some && extreme(ps, highest) != extreme(q, highest) {
            assert(ps[ps.len() - 1] == ps.last());
        }
        assert forall|k: int| 0 <= k < ps.len() && (#[trigger] ps[k]).is_points_enabled_snapshot implies extreme(ps, highest) is Some by {
            if k < q.len() {
                assert(q[k] == ps[k]);
            } else {
                assert(ps[k] == ps.last());
            }
        }
        assert forall|k: int|
            0 <= k < ps.len() && (#[trigger] ps[k]).is_points_enabled_snapshot implies if highest {
                ps[k].total_points <= extreme(ps, highest).unwrap().0
            } else {
                ps[k].total_points >= extreme(ps, highest).unwrap().0
            } by {
            let p = ps.last();
            if k < q.len() {
                assert(q[k] == ps[k]);
                assert(q[k].is_points_enabled_snapshot);
                assert(extreme(q, highest) is Some);
                let (t, id) = extreme(q, highest).unwrap();
                if p.is_points_enabled_snapshot && beats(p.total_points, p.match_player_id, t, id, highest) {
                    assert(extreme(ps, highest) == Some((p.total_points, p.match_player_id)));
                } else {
                    assert(extreme(ps, highest) == extreme(q, highest));
                }
            } else {
                assert(ps[k] == p);
                match extreme(q, highest) {
                    None => {},
                    Some((t, id)) => {
                        if !beats(p.total_points, p.match_player_id, t, id, highest) {
                            assert(extreme(ps, highest) == extreme(q, highest));
                        }
                    },
                }
            }
        }
    }
}

/// The battle delta of each player of a match, in player order (see `battle_delta`).
pub fn calculate_battle_deltas_for_players(players: &Vec<PointHistoryPlayerBreakdownDto>) -> (res: Vec<PointBattleDeltaDto>)
    requires
        gap_fits(players@),
    ensures
        res.len() == players.len(),
        forall|i: int|
            0 <= i < players.len() ==> {
                let p = #[trigger] players@[i];
                &&& res@[i].match_player_id == p.match_player_id
                &&& res@[i].teammate_id == p.teammate_id
                &&& res@[i].pubg_player_name@ == p.pubg_player_name@
                &&& opt_text(res@[i].display_nickname_snapshot) == opt_text(p.display_nickname_snapshot)
                &&& res@[i].delta == battle_delta(players@, p.match_player_id)
            },
{
    let mut count: usize = 0;
    let mut high: Option<(i64, i64)> = None;
    let mut low: Option<(i64, i64)> = None;
    let mut i: usize = 0;
    while i < players.len()
        invariant
            i <= players@.len(),
            count == enabled_count(players@.take(i as int)),
            count <= i,
            high == extreme(players@.take(i as int), true),
            low == extreme(players@.take(i as int), false),
        decreases players.len() - i,
    {
        proof {
            assert(players@.take(i + 1).drop_last() =~= players@.take(i as int));
        }
        let p = &players[i];
        if p.is_points_enabled_snapshot {
            count = count + 1;
            high = match high {
                None => Some((p.total_points, p.match_player_id)),
                Some((t, id)) => if p.total_points > t || (p.total_points == t && p.match_player_id < id) {
                    Some((p.total_points, p.match_player_id))
                } else {
                    high
                },
            };
            low = match low {
                None => Some((p.total_points, p.match_player_id)),
                Some((t, id)) => if p.total_points < t || (p.total_points == t && p.match_player_id < id) {
                    Some((p.total_points, p.match_player_id))
                } else {
                    low
                },
            };
        }
        i = i + 1;
    }
    assert(players@.take(players@.len() as int) =~= players@);
    let mut gap: i64 = 0;
    let mut high_id: i64 = 0;
    let mut low_id: i64 = 0;
    if count >= 2 {
        proof {
            lemma_extreme_facts(players@, true);
            lemma_extreme_facts(players@, false);
        }
        match (high, low) {
            (Some((ht, hid)), Some((lt, lid))) => {
                proof {
                    let kh = choose|k: int|
                        0 <= k < players@.len() && (#[trigger] players@[k]).is_points_enabled_snapshot
                            && players@[k].total_points == ht && players@[k].match_player_id == hid;
                    let kl = choose|k: int|
                        0 <= k < players@.len() && (#[trigger] players@[k]).is_points_enabled_snapshot
                            && players@[k].total_points == lt && players@[k].match_player_id == lid;
                    assert(players@[kh].total_points - players@[kl].total_points <= i64::MAX);
                    assert(players@[kl].total_points <= ht);
                }
                gap = ht - lt;
                high_id = hid;
                low_id = lid;
            },
            _ => {},
        }
    }
    let mut res: Vec<PointBattleDeltaDto> = Vec::new();
    let mut j: usize = 0;
    while j < players.len()
        invariant
            j <= players@.len(),
            res@.len() == j,
            count == enabled_count(players@),
            count >= 2 ==> gap >= 0 && gap == battle_gap(players@) && high_id == extreme(players@, true).unwrap().1 && low_id == extreme(players@, false).unwrap().1,
            forall|k: int|
                0 <= k < j ==> {
                    let p = #[trigger] players@[k];
                    &&& res@[k].match_player_id == p.match_player_id
                    &&& res@[k].teammate_id == p.teammate_id
                    &&& res@[k].pubg_player_name@ == p.pubg_player_name@
                    &&& opt_text(res@[k].display_nickname_snapshot) == opt_text(p.display_nickname_snapshot)
                    &&& res@[k].delta == battle_delta(players@, p.match_player_id)
                },
        decreases players.len() - j,
    {
        let p = &players[j];
        let delta: i64 = if count < 2 || gap == 0 {
            0
        } else if p.match_player_id == high_id {
            gap
        } else if p.match_player_id == low_id {
            -gap
        } else {
            0
        };
        res.push(
            PointBattleDeltaDto {
                match_player_id: p.match_player_id,
                teammate_id: p.teammate_id,
                pubg_player_name: p.pubg_player_name.clone(),
                display_nickname_snapshot: match &p.display_nickname_snapshot {
                    Some(n) => Some(n.clone()),
                    None => None,
                },
                delta,
            },
        );
        j = j + 1;
    }
    res
}

/// The sum of the battle deltas of the first `n` players.
pub open spec fn delta_sum(ps: Seq<PointHistoryPlayerBreakdownDto>, n: int) -> int
    decreases n,
{
    if n <= 0 {
        0
    } else {
        delta_sum(ps, n - 1) + battle_delta(ps, ps[n - 1].match_player_id)
    }
}

pub open spec fn ids_unique(ps: Seq<PointHistoryPlayerBreakdownDto>) -> bool {
    forall|i: int, j: int| 0 <= i < j < ps.len() ==> (#[trigger] ps[i]).match_player_id != (#[trigger] ps[j]).match_player_id
}

proof fn lemma_delta_sum(ps: Seq<PointHistoryPlayerBreakdownDto>, n: int, hid: i64, lid: i64, gap: int)
    requires
        0 <= n <= ps.len(),
        ids_unique(ps),
        hid != lid,
        forall|i: int| 0 <= i < ps.len() ==> battle_delta(ps, (#[trigger] ps[i]).match_player_id) == if ps[i].match_player_id == hid {
            gap
        } else if ps[i].match_player_id == lid {
            -gap
        } else {
            0
        },
    ensures
        delta_sum(ps, n) == (if exists|i: int| 0 <= i < n && (#[trigger] ps[i]).match_player_id == hid { gap } else { 0 })
            - (if exists|i: int| 0 <= i < n && (#[trigger] ps[i]).match_player_id == lid { gap } else { 0 }),
    decreases n,
{
    if n > 0 {
        lemma_delta_sum(ps, n - 1, hid, lid, gap);
        let x = ps[n - 1];
        if x.match_player_id == hid {
            assert(!(exists|i: int| 0 <= i < n - 1 && (#[trigger] ps[i]).match_player_id == hid));
        }
        if x.match_player_id == lid {
            assert(!(exists|i: int| 0 <= i < n - 1 && (#[trigger] ps[i]).match_player_id == lid));
        }
        if exists|i: int| 0 <= i < n && (#[trigger] ps[i]).match_player_id == hid {
            if x.match_player_id != hid {
                let i = choose|i: int| 0 <= i < n && (#[trigger] ps[i]).match_player_id == hid;
                assert(i < n - 1);
            }
        }
        if exists|i: int| 0 <= i < n && (#[trigger] ps[i]).match_player_id == lid {
            if x.match_player_id != lid {
                let i = choose|i: int| 0 <= i < n && (#[trigger] ps[i]).match_player_id == lid;
                assert(i < n - 1);
            }
        }
    }
}

proof fn lemma_delta_sum_zero(ps: Seq<PointHistoryPlayerBreakdownDto>, n: int)
    requires
        0 <= n <= ps.len(),
        enabled_count(ps) < 2 || battle_gap(ps) == 0,
    ensures
        delta_sum(ps, n) == 0,
    decreases n,
{
    if n > 0 {
        lemma_delta_sum_zero(ps, n - 1);
    }
}

/// The battle is zero-sum: when match-player ids are distinct, the deltas of a match add up
/// to zero.
pub proof fn law_battle_is_zero_sum(ps: Seq<PointHistoryPlayerBreakdownDto>)
    requires
        ids_unique(ps),
    ensures
        delta_sum(ps, ps.len() as int) == 0,
{
    if enabled_count(ps) < 2 || battle_gap(ps) == 0 {
        lemma_delta_sum_zero(ps, ps.len() as int);
    } else {
        lemma_extreme_facts(ps, true);
        lemma_extreme_facts(ps, false);
        let (ht, hid) = extreme(ps, true).unwrap();
        let (lt, lid) = extreme(ps, false).unwrap();
        let kh = choose|k: int|
            0 <= k < ps.len() && (#[trigger] ps[k]).is_points_enabled_snapshot && ps[k].total_points == ht
                && ps[k].match_player_id == hid;
        let kl = choose|k: int|
            0 <= k < ps.len() && (#[trigger] ps[k]).is_points_enabled_snapshot && ps[k].total_points == lt
                && ps[k].match_player_id == lid;
        assert(kh != kl);
        if kh < kl {
            assert(ps[kh].match_player_id != ps[kl].match_player_id);
        } else {
            assert(ps[kl].match_player_id != ps[kh].match_player_id);
        }
        lemma_delta_sum(ps, ps.len() as int, hid, lid, battle_gap(ps));
        assert(ps[kh].match_player_id == hid);
        assert(ps[kl].match_player_id == lid);
    }
}

/// The winner of a battle takes exactly the gap between the highest and the lowest enabled
/// total, and that gap is never negative.
pub proof fn law_battle_gap_is_spread(ps: Seq<PointHistoryPlayerBreakdownDto>)
    requires
        enabled_count(ps) >= 2,
    ensures
        battle_gap(ps) >= 0,
        forall|k: int| 0 <= k < ps.len() && (#[trigger] ps[k]).is_points_enabled_snapshot ==>
            extreme(ps, false).unwrap().0 <= ps[k].total_points <= extreme(ps, true).unwrap().0,
{
    lemma_extreme_facts(ps, true);
    lemma_extreme_facts(ps, false);
    let (lt, lid) = extreme(ps, false).unwrap();
    let kl = choose|k: int|
        0 <= k < ps.len() && (#[trigger] ps[k]).is_points_enabled_snapshot && ps[k].total_points == lt
            && ps[k].match_player_id == lid;
    assert(ps[kl].is_points_enabled_snapshot);
}


/// Only players whose points count take part in the battle: with distinct match-player ids,
/// a player whose points do not count gets a delta of zero.
pub proof fn law_disabled_players_have_no_delta(ps: Seq<PointHistoryPlayerBreakdownDto>, k: int)
    requires
        ids_unique(ps),
        0 <= k < ps.len(),
        !ps[k].is_points_enabled_snapshot,
    ensures
        battle_delta(ps, ps[k].match_player_id) == 0,
{
    if !(enabled_count(ps) < 2 || battle_gap(ps) == 0) {
        lemma_extreme_facts(ps, true);
        lemma_extreme_facts(ps, false);
        let (ht, hid) = extreme(ps, true).unwrap();
        let (lt, lid) = extreme(ps, false).unwrap();
        let kh = choose|j: int|
            0 <= j < ps.len() && (#[trigger] ps[j]).is_points_enabled_snapshot && ps[j].total_points == ht
                && ps[j].match_player_id == hid;
        let kl = choose|j: int|
            0 <= j < ps.len() && (#[trigger] ps[j]).is_points_enabled_snapshot && ps[j].total_points == lt
                && ps[j].match_player_id == lid;
        assert(kh != k);
        assert(kl != k);
        if kh < k {
            assert(ps[kh].match_player_id != ps[k].match_player_id);
        } else {
            assert(ps[k].match_player_id != ps[kh].match_player_id);
        }
        if kl < k {
            assert(ps[kl].match_player_id != ps[k].match_player_id);
        } else {
            assert(ps[k].match_player_id != ps[kl].match_player_id);
        }
    }
}

// ----- history groups --------------------------------------------------------------------

/// One joined row of a match, its point record and its player, as the history query reads it.
#[derive(Debug, Clone)]
pub struct HistoryGroupRow {
    pub match_id: String,
    pub played_at: String,
    pub map_name: Option<String>,
    pub game_mode: Option<String>,
    pub rule_id: i64,
    pub rule_name_snapshot: String,
    pub note: Option<String>,
    pub settled_at: Option<String>,
    pub settlement_batch_id: Option<i64>,
    pub match_player_id: i64,
    pub teammate_id: Option<i64>,
    pub team_id: Option<i64>,
    pub pubg_account_id: Option<String>,
    pub pubg_player_name: String,
    pub display_nickname_snapshot: Option<String>,
    pub is_self: bool,
    pub is_points_enabled_snapshot: bool,
    /// Damage in thousandths.
    pub damage: i64,
    pub kills: i64,
    pub revives: i64,
    pub damage_points_per_damage_snapshot: i64,
    pub kill_points_snapshot: i64,
    pub revive_points_snapshot: i64,
    pub rounding_mode_snapshot: String,
    pub total_points: i64,
}

/// A group being built: the index of its first row, the indices of its rows, and the team of
/// its last `is_self` row.
pub struct GroupAccV {
    pub head: int,
    pub members: Seq<int>,
    pub self_team: Option<i64>,
}

pub open spec fn group_of(rows: Seq<HistoryGroupRow>, m: Seq<char>) -> spec_fn(GroupAccV) -> bool {
    |g: GroupAccV| rows[g.head].match_id@ == m
}

/// Rows grouped by match id, groups in order of first appearance.
pub open spec fn group_fold(rows: Seq<HistoryGroupRow>, n: int) -> Seq<GroupAccV>
    decreases n,
{
    if n <= 0 {
        Seq::empty()
    } else {
        let gs = group_fold(rows, n - 1);
        let r = rows[n - 1];
        let g = first_where(gs, group_of(rows, r.match_id@));
        if g >= 0 {
            gs.update(
                g,
                GroupAccV {
                    head: gs[g].head,
                    members: gs[g].members.push(n - 1),
                    self_team: if r.is_self {
                        r.team_id
                    } else {
                        gs[g].self_team
                    },
                },
            )
        } else {
            gs.push(
                GroupAccV {
                    head: n - 1,
                    members: seq![n - 1],
                    self_team: if r.is_self {
                        r.team_id
                    } else {
                        None
                    },
                },
            )
        }
    }
}

/// Whether a row's player shows in its match's history: the player is the account's own, or
/// plays in its team.
pub open spec fn kept_row(r: HistoryGroupRow, self_team: Option<i64>) -> bool {
    r.is_self || (self_team is Some && r.team_id == self_team)
}

/// The breakdown of a row as plain values.
pub struct BreakdownV {
    pub match_player_id: i64,
    pub teammate_id: Option<i64>,
    pub pubg_account_id: Option<Seq<char>>,
    pub pubg_player_name: Seq<char>,
    pub display_nickname_snapshot: Option<Seq<char>>,
    pub is_self: bool,
    pub is_points_enabled_snapshot: bool,
    pub damage: i64,
    pub kills: i64,
    pub revives: i64,
    pub damage_points_per_damage_snapshot: i64,
    pub kill_points_snapshot: i64,
    pub revive_points_snapshot: i64,
    pub damage_points: i64,
    pub kill_points: i64,
    pub revive_points: i64,
    pub total_points: i64,
}

pub open spec fn breakdown_view(b: PointHistoryPlayerBreakdownDto) -> BreakdownV {
    BreakdownV {
        match_player_id: b.match_player_id,
        teammate_id: b.teammate_id,
        pubg_account_id: opt_text(b.pubg_account_id),
        pubg_player_name: b.pubg_player_name@,
        display_nickname_snapshot: opt_text(b.display_nickname_snapshot),
        is_self: b.is_self,
        is_points_enabled_snapshot: b.is_points_enabled_snapshot,
        damage: b.damage,
        kills: b.kills,
        revives: b.revives,
        damage_points_per_damage_snapshot: b.damage_points_per_damage_snapshot,
        kill_points_snapshot: b.kill_points_snapshot,
        revive_points_snapshot: b.revive_points_snapshot,
        damage_points: b.damage_points,
        kill_points: b.kill_points,
        revive_points: b.revive_points,
        total_points: b.total_points,
    }
}

/// The breakdown of a row: the stored totals plus the points of each kind recomputed under
/// the rule snapshot of its record.
pub open spec fn row_breakdown(r: HistoryGroupRow) -> BreakdownV {
    BreakdownV {
        match_player_id: r.match_player_id,
        teammate_id: r.teammate_id,
        pubg_account_id: opt_text(r.pubg_account_id),
        pubg_player_name: r.pubg_player_name@,
        display_nickname_snapshot: opt_text(r.display_nickname_snapshot),
        is_self: r.is_self,
        is_points_enabled_snapshot: r.is_points_enabled_snapshot,
        damage: r.damage,
        kills: r.kills,
        revives: r.revives,
        damage_points_per_damage_snapshot: r.damage_points_per_damage_snapshot,
        kill_points_snapshot: r.kill_points_snapshot,
        revive_points_snapshot: r.revive_points_snapshot,
        damage_points: apply_rounding_spec(damage_value(r.damage, r.damage_points_per_damage_snapshot), r.rounding_mode_snapshot@),
        kill_points: sat_mul(r.kills, r.kill_points_snapshot),
        revive_points: sat_mul(r.revives, r.revive_points_snapshot),
        total_points: r.total_points,
    }
}

/// The rows of a group that show in the history, as breakdowns.
pub open spec fn group_players(rows: Seq<HistoryGroupRow>, g: GroupAccV) -> Seq<BreakdownV> {
    g.members.filter(|i: int| kept_row(rows[i], g.self_team)).map_values(|i: int| row_breakdown(rows[i]))
}

/// The totals of any two players of the `g`-th match who show and whose points count differ
/// by no more than an `i64` holds (what the battle of that match computes).
pub open spec fn group_gap_ok(rows: Seq<HistoryGroupRow>, g: int) -> bool {
    let ps = group_players(rows, group_fold(rows, rows.len() as int)[g]);
    forall|a: int, b: int|
        0 <= a < ps.len() && 0 <= b < ps.len() && (#[trigger] ps[a]).is_points_enabled_snapshot
            && (#[trigger] ps[b]).is_points_enabled_snapshot ==> ps[a].total_points - ps[b].total_points <= i64::MAX
}

/// Within every match, the battle's gap fits (see `group_gap_ok`).
pub open spec fn rows_gap_fits(rows: Seq<HistoryGroupRow>) -> bool {
    forall|g: int| 0 <= g < group_fold(rows, rows.len() as int).len() ==> #[trigger] group_gap_ok(rows, g)
}

/// The `g`-th group of the history as built from the rows: the fields of its first row, the
/// breakdowns of the rows that show, and their battle deltas.
pub open spec fn history_group_ok(rows: Seq<HistoryGroupRow>, g: int, group: PointHistoryMatchGroupDto) -> bool {
    let acc = group_fold(rows, rows.len() as int)[g];
    let head = rows[acc.head];
    &&& group.item_type@ == "match_group"@
    &&& group.match_id@ == head.match_id@
    &&& group.played_at@ == head.played_at@
    &&& opt_text(group.map_name) == opt_text(head.map_name)
    &&& opt_text(group.game_mode) == opt_text(head.game_mode)
    &&& group.rule_id == head.rule_id
    &&& group.rule_name_snapshot@ == head.rule_name_snapshot@
    &&& group.is_settled == (head.settled_at is Some)
    &&& opt_text(group.settled_at) == opt_text(head.settled_at)
    &&& group.settlement_batch_id == head.settlement_batch_id
    &&& opt_text(group.note) == opt_text(head.note)
    &&& group.players@.map_values(|b: PointHistoryPlayerBreakdownDto| breakdown_view(b)) == group_players(rows, acc)
    &&& group.battle_deltas.len() == group.players.len()
    &&& forall|i: int| 0 <= i < group.players.len() ==> (#[trigger] group.battle_deltas@[i]).delta
        == battle_delta(group.players@, group.players@[i].match_player_id)
        && group.battle_deltas@[i].match_player_id == group.players@[i].match_player_id
}

/// Whether the totals of any two enabled players differ by no more than an `i64` holds.
pub fn breakdowns_gap_fit(players: &Vec<PointHistoryPlayerBreakdownDto>) -> (res: bool)
    ensures
        res == gap_fits(players@),
{
    let mut hi: Option<usize> = None;
    let mut lo: Option<usize> = None;
    let mut i: usize = 0;
    while i < players.len()
        invariant
            i <= players@.len(),
            hi is Some <==> lo is Some,
            hi is None ==> forall|k: int| 0 <= k < i ==> !(#[trigger] players@[k]).is_points_enabled_snapshot,
            match hi {
                Some(h) => h < i && players@[h as int].is_points_enabled_snapshot
                    && forall|k: int| 0 <= k < i && (#[trigger] players@[k]).is_points_enabled_snapshot ==> players@[k].total_points <= players@[h as int].total_points,
                None => true,
            },
            match lo {
                Some(l) => l < i && players@[l as int].is_points_enabled_snapshot
                    && forall|k: int| 0 <= k < i && (#[trigger] players@[k]).is_points_enabled_snapshot ==> players@[l as int].total_points <= players@[k].total_points,
                None => true,
            },
        decreases players.len() - i,
    {
        if players[i].is_points_enabled_snapshot {
            match hi {
                None => {
                    hi = Some(i);
                    lo = Some(i);
                },
                Some(h) => {
                    if players[i].total_points > players[h].total_points {
                        hi = Some(i);
                    }
                    let l = lo.unwrap();
                    if players[i].total_points < players[l].total_points {
                        lo = Some(i);
                    }
                },
            }
        }
        i = i + 1;
    }
    match (hi, lo) {
        (Some(h), Some(l)) => {
            let gap: i128 = players[h].total_points as i128 - players[l].total_points as i128;
            if gap <= i64::MAX as i128 {
                proof {
                    assert forall|a: int, b: int|
                        0 <= a < players@.len() && 0 <= b < players@.len() && players@[a].is_points_enabled_snapshot
                            && players@[b].is_points_enabled_snapshot implies (#[trigger] players@[a]).total_points
                        - (#[trigger] players@[b]).total_points <= i64::MAX by {
                        assert(players@[a].total_points <= players@[h as int].total_points);
                        assert(players@[l as int].total_points <= players@[b].total_points);
                    }
                }
                true
            } else {
                proof {
                    assert(players@[h as int].total_points - players@[l as int].total_points > i64::MAX);
                }
                false
            }
        },
        _ => true,
    }
}

fn clone_text(o: &Option<String>) -> (res: Option<String>)
    ensures
        opt_text(res) == opt_text(*o),
{
    match o {
        Some(s) => Some(s.clone()),
        None => None,
    }
}

fn breakdown_of_row(r: &HistoryGroupRow) -> (res: PointHistoryPlayerBreakdownDto)
    ensures
        breakdown_view(res) == row_breakdown(*r),
{
    proof {
        lemma_i64_product_bound(r.damage, r.damage_points_per_damage_snapshot);
    }
    let damage_points = apply_rounding(
        (r.damage as i128) * (r.damage_points_per_damage_snapshot as i128),
        r.rounding_mode_snapshot.as_str(),
    );
    PointHistoryPlayerBreakdownDto {
        match_player_id: r.match_player_id,
        teammate_id: r.teammate_id,
        pubg_account_id: clone_text(&r.pubg_account_id),
        pubg_player_name: r.pubg_player_name.clone(),
        display_nickname_snapshot: clone_text(&r.display_nickname_snapshot),
        is_self: r.is_self,
        is_points_enabled_snapshot: r.is_points_enabled_snapshot,
        damage: r.damage,
        kills: r.kills,
        revives: r.revives,
        damage_points_per_damage_snapshot: r.damage_points_per_damage_snapshot,
        kill_points_snapshot: r.kill_points_snapshot,
        revive_points_snapshot: r.revive_points_snapshot,
        damage_points,
        kill_points: saturating_mul(r.kills, r.kill_points_snapshot),
        revive_points: saturating_mul(r.revives, r.revive_points_snapshot),
        total_points: r.total_points,
    }
}

pub struct GroupAcc {
    pub head: usize,
    pub members: Vec<usize>,
    pub self_team: Option<i64>,
}

pub open spec fn group_acc_view(g: GroupAcc) -> GroupAccV {
    GroupAccV { head: g.head as int, members: g.members@.map_values(|i: usize| i as int), self_team: g.self_team }
}

pub open spec fn groups_view(gs: Seq<GroupAcc>) -> Seq<GroupAccV> {
    gs.map_values(|g: GroupAcc| group_acc_view(g))
}

pub open spec fn fold_well_formed(rows: Seq<HistoryGroupRow>, gs: Seq<GroupAccV>) -> bool {
    forall|g: int, k: int| 0 <= g < gs.len() && 0 <= k < gs[g].members.len() ==> 0 <= #[trigger] gs[g].members[k] < rows.len()
}

proof fn lemma_group_fold_well_formed(rows: Seq<HistoryGroupRow>, n: int)
    requires
        0 <= n <= rows.len(),
    ensures
        fold_well_formed(rows, group_fold(rows, n)),
        forall|g: int| 0 <= g < group_fold(rows, n).len() ==> 0 <= #[trigger] group_fold(rows, n)[g].head < rows.len(),
    decreases n,
{
    if n > 0 {
        lemma_group_fold_well_formed(rows, n - 1);
        let gs = group_fold(rows, n - 1);
        let gi = first_where(gs, group_of(rows, rows[n - 1].match_id@));
        lemma_first_where_facts(gs, group_of(rows, rows[n - 1].match_id@));
        let out = group_fold(rows, n);
        assert forall|g: int, k: int| 0 <= g < out.len() && 0 <= k < out[g].members.len() implies 0 <= #[trigger] out[g].members[k] < rows.len() by {
            if g < gs.len() && g != gi {
                assert(out[g] == gs[g]);
            } else if g < gs.len() {
                if k < gs[g].members.len() {
                    assert(out[g].members[k] == gs[g].members[k]);
                }
            }
        }
        assert forall|g: int| 0 <= g < out.len() implies 0 <= #[trigger] out[g].head < rows.len() by {
            if g < gs.len() && g != gi {
                assert(out[g] == gs[g]);
            }
        }
    }
}

/// The position of the group whose first row has the given match id.
fn find_group(rows: &Vec<HistoryGroupRow>, groups: &Vec<GroupAcc>, match_id: &String) -> (res: Option<usize>)
    requires
        forall|k: int| 0 <= k < groups@.len() ==> (#[trigger] groups@[k]).head < rows@.len(),
    ensures
        match res {
            Some(g) => g < groups@.len() && first_where(groups_view(groups@), group_of(rows@, match_id@)) == g,
            None => first_where(groups_view(groups@), group_of(rows@, match_id@)) == -1,
        },
{
    let ghost gs = groups_view(groups@);
    let ghost p = group_of(rows@, match_id@);
    let mut g: usize = 0;
    while g < groups.len()
        invariant
            g <= groups@.len(),
            gs == groups_view(groups@),
            p == group_of(rows@, match_id@),
            forall|k: int| 0 <= k < groups@.len() ==> (#[trigger] groups@[k]).head < rows@.len(),
            forall|k: int| 0 <= k < g ==> !p(#[trigger] gs[k]),
        decreases groups.len() - g,
    {
        let head = groups[g].head;
        assert(gs[g as int].head == head as int);
        if str_eq(rows[head].match_id.as_str(), match_id.as_str()) {
            proof {
                lemma_first_where(gs, p, g as int);
            }
            return Some(g);
        }
        g = g + 1;
    }
    proof {
        lemma_first_where(gs, p, g as int);
    }
    None
}

/// The match groups of the history rows (see `group_fold`, `group_players`): one group per
/// match, in order of first appearance, holding the fields of its first row, the breakdowns
/// of the rows that show, and their battle deltas.
pub fn build_history_groups(rows: &Vec<HistoryGroupRow>) -> (res: Vec<PointHistoryMatchGroupDto>)
    requires
        rows_gap_fits(rows@),
    ensures
        res.len() == group_fold(rows@, rows@.len() as int).len(),
        forall|g: int| 0 <= g < res.len() ==> #[trigger] history_group_ok(rows@, g, res@[g]),
{
    match history_groups_checked(rows) {
        Some(groups) => groups,
        None => {
            proof {
                assert(false);
            }
            Vec::new()
        },
    }
}

/// The match groups of the history rows, as `build_history_groups` builds them, when every
/// match's battle gap fits (`rows_gap_fits`); none when one does not.
pub fn history_groups_checked(rows: &Vec<HistoryGroupRow>) -> (res: Option<Vec<PointHistoryMatchGroupDto>>)
    ensures
        res is Some <==> rows_gap_fits(rows@),
        res matches Some(gs) ==> {
            &&& gs.len() == group_fold(rows@, rows@.len() as int).len()
            &&& forall|g: int| 0 <= g < gs.len() ==> #[trigger] history_group_ok(rows@, g, gs@[g])
        },
{
    let mut groups: Vec<GroupAcc> = Vec::new();
    let mut i: usize = 0;
    proof {
        assert(groups_view(groups@) =~= group_fold(rows@, 0));
    }
    while i < rows.len()
        invariant
            i <= rows@.len(),
            groups_view(groups@) == group_fold(rows@, i as int),
            forall|g: int| 0 <= g < groups@.len() ==> (#[trigger] groups@[g]).head < i,
        decreases rows.len() - i,
    {
        let ghost gs = groups_view(groups@);
        let r = &rows[i];
        let found = find_group(rows, &groups, &r.match_id);
        match found {
            Some(gi) => {
                let old_group = &groups[gi];
                let mut members = old_group.members.clone();
                members.push(i);
                let self_team = if r.is_self {
                    r.team_id
                } else {
                    old_group.self_team
                };
                let updated = GroupAcc { head: old_group.head, members, self_team };
                let ghost old_members = old_group.members@;
                groups.set(gi, updated);
                proof {
                    assert(groups@[gi as int].members@.map_values(|i: usize| i as int) =~= old_members.map_values(|i: usize| i as int).push(i as int));
                    assert(groups_view(groups@) =~= group_fold(rows@, i + 1));
                }
            },
            None => {
                let mut members: Vec<usize> = Vec::new();
                members.push(i);
                let self_team = if r.is_self {
                    r.team_id
                } else {
                    None
                };
                groups.push(GroupAcc { head: i, members, self_team });
                proof {
                    assert(groups@[groups@.len() - 1].members@.map_values(|i: usize| i as int) =~= seq![i as int]);
                    assert(groups_view(groups@) =~= group_fold(rows@, i + 1));
                }
            },
        }
        i = i + 1;
    }
    proof {
        lemma_group_fold_well_formed(rows@, rows@.len() as int);
    }
    let mut res: Vec<PointHistoryMatchGroupDto> = Vec::new();
    let mut g: usize = 0;
    while g < groups.len()
        invariant
            g <= groups@.len(),
            groups_view(groups@) == group_fold(rows@, rows@.len() as int),
            fold_well_formed(rows@, groups_view(groups@)),
            forall|k: int| 0 <= k < groups_view(groups@).len() ==> 0 <= #[trigger] groups_view(groups@)[k].head < rows@.len(),
            res.len() == g,
            forall|k: int| 0 <= k < g ==> #[trigger] group_gap_ok(rows@, k),
            forall|k: int| 0 <= k < g ==> #[trigger] history_group_ok(rows@, k, res@[k]),
        decreases groups.len() - g,
    {
        let acc = &groups[g];
        let ghost accv = groups_view(groups@)[g as int];
        assert(accv == group_acc_view(*acc));
        assert(groups_view(groups@)[g as int].head < rows@.len());
        let head = &rows[acc.head];
        let mut players: Vec<PointHistoryPlayerBreakdownDto> = Vec::new();
        let mut k: usize = 0;
        proof {
            reveal(Seq::filter);
            assert(accv.members.take(0).filter(|i: int| kept_row(rows@[i], accv.self_team)) =~= Seq::<int>::empty());
        }
        while k < acc.members.len()
            invariant
                k <= acc.members@.len(),
                accv == group_acc_view(*acc),
                forall|q: int| 0 <= q < accv.members.len() ==> 0 <= #[trigger] accv.members[q] < rows@.len(),
                players@.map_values(|b: PointHistoryPlayerBreakdownDto| breakdown_view(b))
                    == accv.members.take(k as int).filter(|i: int| kept_row(rows@[i], accv.self_team)).map_values(|i: int| row_breakdown(rows@[i])),
            decreases acc.members.len() - k,
        {
            let ri = acc.members[k];
            assert(accv.members[k as int] == ri as int);
            let row = &rows[ri];
            let ghost pred = |i: int| kept_row(rows@[i], accv.self_team);
            proof {
                assert(accv.members.take(k + 1) =~= accv.members.take(k as int).push(ri as int));
                accv.members.take(k as int).lemma_filter_push(ri as int, pred);
            }
            let keep = row.is_self || (acc.self_team.is_some() && row.team_id == acc.self_team);
            if keep {
                let b = breakdown_of_row(row);
                let ghost old_players = players@;
                let ghost bv = breakdown_view(b);
                players.push(b);
                proof {
                    assert(players@.map_values(|b: PointHistoryPlayerBreakdownDto| breakdown_view(b))
                        =~= old_players.map_values(|b: PointHistoryPlayerBreakdownDto| breakdown_view(b)).push(bv));
                }
            }
            k = k + 1;
        }
        proof {
            assert(accv.members.take(accv.members.len() as int) =~= accv.members);
            let pv = group_players(rows@, group_fold(rows@, rows@.len() as int)[g as int]);
            assert(players@.map_values(|b: PointHistoryPlayerBreakdownDto| breakdown_view(b)) == pv);
            assert(pv.len() == players@.len());
            assert forall|a: int| 0 <= a < players@.len() implies #[trigger] pv[a] == breakdown_view(players@[a]) by {}
        }
        let fits = breakdowns_gap_fit(&players);
        if !fits {
            proof {
                let pv = group_players(rows@, group_fold(rows@, rows@.len() as int)[g as int]);
                if group_gap_ok(rows@, g as int) {
                    assert forall|a: int, b: int|
                        0 <= a < players@.len() && 0 <= b < players@.len() && players@[a].is_points_enabled_snapshot
                            && players@[b].is_points_enabled_snapshot implies (#[trigger] players@[a]).total_points
                        - (#[trigger] players@[b]).total_points <= i64::MAX by {
                        assert(pv[a] == breakdown_view(players@[a]));
                        assert(pv[b] == breakdown_view(players@[b]));
                        assert(pv[a].is_points_enabled_snapshot && pv[b].is_points_enabled_snapshot);
                        assert(pv[a].total_points - pv[b].total_points <= i64::MAX);
                    }
                    assert(false);
                }
                assert(!rows_gap_fits(rows@));
            }
            return None;
        }
        proof {
            let pv = group_players(rows@, group_fold(rows@, rows@.len() as int)[g as int]);
            assert forall|a: int, b: int|
                0 <= a < pv.len() && 0 <= b < pv.len() && (#[trigger] pv[a]).is_points_enabled_snapshot
                    && (#[trigger] pv[b]).is_points_enabled_snapshot implies pv[a].total_points - pv[b].total_points <= i64::MAX by {
                assert(pv[a] == breakdown_view(players@[a]));
                assert(pv[b] == breakdown_view(players@[b]));
                assert(players@[a].total_points - players@[b].total_points <= i64::MAX);
            }
            assert(group_gap_ok(rows@, g as int));
        }
        let battle_deltas = calculate_battle_deltas_for_players(&players);
        let group = PointHistoryMatchGroupDto {
            item_type: "match_group".to_owned(),
            match_id: head.match_id.clone(),
            played_at: head.played_at.clone(),
            map_name: clone_text(&head.map_name),
            game_mode: clone_text(&head.game_mode),
            rule_id: head.rule_id,
            rule_name_snapshot: head.rule_name_snapshot.clone(),
            is_settled: head.settled_at.is_some(),
            settled_at: clone_text(&head.settled_at),
            settlement_batch_id: head.settlement_batch_id,
            note: clone_text(&head.note),
            players,
            battle_deltas,
        };
        let ghost old_res = res@;
        res.push(group);
        proof {
            assert(res@[g as int] == group);
            assert(history_group_ok(rows@, g as int, res@[g as int]));
            assert forall|k: int| 0 <= k < g + 1 implies #[trigger] history_group_ok(rows@, k, res@[k]) by {
                if k < g {
                    assert(res@[k] == old_res[k]);
                }
            }
        }
        g = g + 1;
    }
    proof {
        assert(rows_gap_fits(rows@));
    }
    Some(res)
}

// ----- pages -----------------------------------------------------------------------------

/// The page of a list: from `offset` (negative counts as 0) at most `limit` items (negative
/// counts as 0; no limit keeps the rest).
pub open spec fn page_bounds(len: int, limit: Option<i64>, offset: i64) -> (int, int) {
    let start = if offset < 0 {
        0
    } else {
        offset as int
    };
    match limit {
        None => (start, len),
        Some(l) => {
            let size = if l < 0 {
                0
            } else {
                l as int
            };
            (start, if start + size < len {
                start + size
            } else {
                len
            })
        },
    }
}

pub open spec fn page_of<T>(s: Seq<T>, limit: Option<i64>, offset: i64) -> Seq<T> {
    let (start, end) = page_bounds(s.len() as int, limit, offset);
    if start >= s.len() {
        Seq::empty()
    } else {
        s.subrange(start, end)
    }
}

/// The match ids of one page of the history.
pub fn page_match_ids(all_match_ids: Vec<String>, limit: Option<i64>, offset: i64) -> (res: Vec<String>)
    ensures
        res@ == page_of(all_match_ids@, limit, offset),
{
    let len = all_match_ids.len();
    let start: u64 = if offset < 0 {
        0
    } else {
        offset as u64
    };
    if start >= len as u64 {
        return Vec::new();
    }
    let start = start as usize;
    let end: usize = match limit {
        None => len,
        Some(l) => {
            let size: u64 = if l < 0 {
                0
            } else {
                l as u64
            };
            if size < (len - start) as u64 {
                start + size as usize
            } else {
                len
            }
        },
    };
    let mut out: Vec<String> = Vec::new();
    let mut i = start;
    while i < end
        invariant
            start <= i <= end <= all_match_ids@.len(),
            out@ == all_match_ids@.subrange(start as int, i as int),
        decreases end - i,
    {
        out.push(all_match_ids[i].clone());
        proof {
            assert(out@ =~= all_match_ids@.subrange(start as int, i + 1));
        }
        i = i + 1;
    }
    out
}

/// The history list: one match-group item per group, in order.
pub fn history_items(groups: Vec<PointHistoryMatchGroupDto>) -> (res: Vec<PointHistoryListItemDto>)
    ensures
        res@ == groups@.map_values(|g: PointHistoryMatchGroupDto| PointHistoryListItemDto::MatchGroup(g)),
{
    let mut out: Vec<PointHistoryListItemDto> = Vec::new();
    let mut rest = groups;
    let ghost whole = rest@;
    let n = rest.len();
    assert(whole.len() == n);
    let mut taken: usize = 0;
    while rest.len() > 0
        invariant
            taken + rest@.len() == whole.len(),
            taken <= whole.len(),
            whole.len() <= usize::MAX,
            rest@ == whole.skip(taken as int),
            out@ == whole.take(taken as int).map_values(|g: PointHistoryMatchGroupDto| PointHistoryListItemDto::MatchGroup(g)),
        decreases rest.len(),
    {
        let g = rest.remove(0);
        proof {
            assert(whole.skip(taken + 1) =~= whole.skip(taken as int).drop_first());
            assert(whole.take(taken + 1) =~= whole.take(taken as int).push(g));
            assert(rest@ =~= whole.skip(taken + 1));
        }
        let ghost before = out@;
        out.push(PointHistoryListItemDto::MatchGroup(g));
        proof {
            assert(out@ =~= whole.take(taken + 1).map_values(|g: PointHistoryMatchGroupDto| PointHistoryListItemDto::MatchGroup(g)));
        }
        taken = taken + 1;
    }
    proof {
        assert(whole.take(taken as int) =~= whole);
    }
    out
}

} // verus!
