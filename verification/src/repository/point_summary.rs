//! What the unsettled matches add up to for each player.
//!
//! Each battle delta of each unsettled match group is credited to the player it names; the
//! same person (same account id, or same name when there is none, and same `is_self`) is
//! merged across matches, and the totals are ranked.

use vstd::prelude::*;
use crate::parser::telemetry::{first_where, lemma_first_where, lemma_first_where_facts};
use crate::repository::points::{
    battle_delta, delta_sum, ids_unique, law_battle_is_zero_sum, PointBattleDeltaDto, PointHistoryMatchGroupDto, PointHistoryPlayerBreakdownDto,
    UnsettledBattleSummaryDto, UnsettledPlayerSummaryDto,
};
use crate::sort::{key_view, lemma_map_multiset, lemma_stable_order_views, sort_by_keys, sorted_by, stable_order, KeyPart, KeyV};
use crate::text::{opt_text, str_eq};

verus! {

/// A teammate's current display nickname, as stored.
#[derive(Debug, Clone)]
pub struct TeammateNickname {
    pub teammate_id: i64,
    pub display_nickname: Option<String>,
}

/// A player's running summary.
pub struct SummaryAggV {
    pub ident: Seq<char>,
    pub is_self: bool,
    pub teammate_id: Option<i64>,
    pub name: Seq<char>,
    pub fallback: Option<Seq<char>>,
    pub total: int,
}

/// A summary line as plain values.
pub struct SummaryV {
    pub teammate_id: Option<i64>,
    pub name: Seq<char>,
    pub display_nickname: Option<Seq<char>>,
    pub is_self: bool,
    pub total: int,
}

/// Who a breakdown belongs to: its account id, or its name when it has none.
pub open spec fn player_ident(p: PointHistoryPlayerBreakdownDto) -> Seq<char> {
    match p.pubg_account_id {
        Some(a) => a@,
        None => p.pubg_player_name@,
    }
}

pub open spec fn same_player(ident: Seq<char>, is_self: bool) -> spec_fn(SummaryAggV) -> bool {
    |a: SummaryAggV| a.ident == ident && a.is_self == is_self
}

/// The index of the last breakdown with the given match-player id, or -1.
pub open spec fn last_with_id(ps: Seq<PointHistoryPlayerBreakdownDto>, id: i64) -> int
    decreases ps.len(),
{
    if ps.len() == 0 {
        -1
    } else if ps.last().match_player_id == id {
        ps.len() - 1
    } else {
        last_with_id(ps.drop_last(), id)
    }
}

/// Credits one battle delta to the player it names (nothing when no player has its id).
pub open spec fn summary_step(
    acc: Seq<SummaryAggV>,
    players: Seq<PointHistoryPlayerBreakdownDto>,
    d: PointBattleDeltaDto,
) -> Seq<SummaryAggV> {
    let pi = last_with_id(players, d.match_player_id);
    if pi < 0 {
        acc
    } else {
        let p = players[pi];
        let k = first_where(acc, same_player(player_ident(p), p.is_self));
        if k < 0 {
            acc.push(
                SummaryAggV {
                    ident: player_ident(p),
                    is_self: p.is_self,
                    teammate_id: p.teammate_id,
                    name: p.pubg_player_name@,
                    fallback: opt_text(p.display_nickname_snapshot),
                    total: d.delta as int,
                },
            )
        } else {
            let a = acc[k];
            acc.update(
                k,
                SummaryAggV {
                    ident: a.ident,
                    is_self: a.is_self,
                    teammate_id: if a.teammate_id is None {
                        p.teammate_id
                    } else {
                        a.teammate_id
                    },
                    name: a.name,
                    fallback: if a.fallback is None {
                        opt_text(p.display_nickname_snapshot)
                    } else {
                        a.fallback
                    },
                    total: a.total + d.delta,
                },
            )
        }
    }
}

/// The first `n` deltas of a group credited in order.
pub open spec fn summary_deltas(
    acc: Seq<SummaryAggV>,
    players: Seq<PointHistoryPlayerBreakdownDto>,
    deltas: Seq<PointBattleDeltaDto>,
    n: int,
) -> Seq<SummaryAggV>
    decreases n,
{
    if n <= 0 {
        acc
    } else {
        summary_step(summary_deltas(acc, players, deltas, n - 1), players, deltas[n - 1])
    }
}

/// The first `g` groups credited in order.
pub open spec fn summary_fold(groups: Seq<PointHistoryMatchGroupDto>, g: int) -> Seq<SummaryAggV>
    decreases g,
{
    if g <= 0 {
        Seq::empty()
    } else {
        let grp = groups[g - 1];
        summary_deltas(summary_fold(groups, g - 1), grp.players@, grp.battle_deltas@, grp.battle_deltas@.len() as int)
    }
}

pub open spec fn totals_fit(acc: Seq<SummaryAggV>) -> bool {
    forall|k: int| 0 <= k < acc.len() ==> i64::MIN <= #[trigger] acc[k].total <= i64::MAX
}

/// Every running total stays within `i64`.
pub open spec fn summary_fits(groups: Seq<PointHistoryMatchGroupDto>) -> bool {
    forall|g: int, n: int|
        0 <= g < groups.len() && 0 <= n <= groups[g].battle_deltas@.len() ==> totals_fit(
            #[trigger] summary_deltas(summary_fold(groups, g), groups[g].players@, groups[g].battle_deltas@, n),
        )
}

pub open spec fn has_teammate_id(t: i64) -> spec_fn(TeammateNickname) -> bool {
    |n: TeammateNickname| n.teammate_id == t
}

/// The nickname shown for a summary: the teammate's current nickname when the teammate is
/// on record, else the first nickname snapshot met.
pub open spec fn shown_nickname(a: SummaryAggV, teammates: Seq<TeammateNickname>) -> Option<Seq<char>> {
    match a.teammate_id {
        Some(t) => {
            let k = first_where(teammates, has_teammate_id(t));
            if k >= 0 {
                opt_text(teammates[k].display_nickname)
            } else {
                a.fallback
            }
        },
        None => a.fallback,
    }
}

pub open spec fn summary_line(a: SummaryAggV, teammates: Seq<TeammateNickname>) -> SummaryV {
    SummaryV {
        teammate_id: a.teammate_id,
        name: a.name,
        display_nickname: shown_nickname(a, teammates),
        is_self: a.is_self,
        total: a.total,
    }
}

pub open spec fn summary_view(p: UnsettledPlayerSummaryDto) -> SummaryV {
    SummaryV {
        teammate_id: p.teammate_id,
        name: p.pubg_player_name@,
        display_nickname: opt_text(p.display_nickname),
        is_self: p.is_self,
        total: p.total_delta as int,
    }
}

/// `None` before every id.
pub open spec fn option_rank(o: Option<i64>) -> int {
    match o {
        None => -0x1_0000_0000_0000_0000,
        Some(x) => x as int,
    }
}

/// Largest total first, then by name, then by teammate id.
pub open spec fn summary_order(p: UnsettledPlayerSummaryDto) -> Seq<KeyV> {
    seq![KeyV::Int(-(p.total_delta as int)), KeyV::Text(p.pubg_player_name@), KeyV::Int(option_rank(p.teammate_id))]
}

/// `summary_order` read on a line's view.
pub open spec fn summary_order_v(p: SummaryV) -> Seq<KeyV> {
    seq![KeyV::Int(-p.total), KeyV::Text(p.name), KeyV::Int(option_rank(p.teammate_id))]
}

struct SummaryAggregate {
    ident: String,
    is_self: bool,
    teammate_id: Option<i64>,
    pubg_player_name: String,
    fallback_display_nickname: Option<String>,
    total_delta: i64,
}

spec fn agg_view(a: SummaryAggregate) -> SummaryAggV {
    SummaryAggV {
        ident: a.ident@,
        is_self: a.is_self,
        teammate_id: a.teammate_id,
        name: a.pubg_player_name@,
        fallback: opt_text(a.fallback_display_nickname),
        total: a.total_delta as int,
    }
}

spec fn aggs_view(s: Seq<SummaryAggregate>) -> Seq<SummaryAggV> {
    s.map_values(|a: SummaryAggregate| agg_view(a))
}

fn clone_opt(o: &Option<String>) -> (res: Option<String>)
    ensures
        opt_text(res) == opt_text(*o),
{
    match o {
        Some(s) => Some(s.clone()),
        None => None,
    }
}

fn find_player(players: &Vec<PointHistoryPlayerBreakdownDto>, id: i64) -> (res: Option<usize>)
    ensures
        match res {
            Some(i) => i < players@.len() && last_with_id(players@, id) == i,
            None => last_with_id(players@, id) == -1,
        },
{
    let mut i: usize = players.len();
    assert(players@.take(i as int) =~= players@);
    while i > 0
        invariant
            i <= players@.len(),
            last_with_id(players@, id) == last_with_id(players@.take(i as int), id),
        decreases i,
    {
        let ghost t = players@.take(i as int);
        assert(t.drop_last() =~= players@.take(i - 1));
        if players[i - 1].match_player_id == id {
            return Some(i - 1);
        }
        i = i - 1;
    }
    None
}

fn find_aggregate(aggs: &Vec<SummaryAggregate>, ident: &str, is_self: bool) -> (res: Option<usize>)
    ensures
        match res {
            Some(k) => k < aggs@.len() && first_where(aggs_view(aggs@), same_player(ident@, is_self)) == k,
            None => first_where(aggs_view(aggs@), same_player(ident@, is_self)) == -1,
        },
{
    let ghost s = aggs_view(aggs@);
    let ghost p = same_player(ident@, is_self);
    let mut k: usize = 0;
    while k < aggs.len()
        invariant
            k <= aggs@.len(),
            s == aggs_view(aggs@),
            p == same_player(ident@, is_self),
            forall|j: int| 0 <= j < k ==> !p(#[trigger] s[j]),
        decreases aggs.len() - k,
    {
        if str_eq(aggs[k].ident.as_str(), ident) && aggs[k].is_self == is_self {
            proof {
                lemma_first_where(s, p, k as int);
            }
            return Some(k);
        }
        k = k + 1;
    }
    proof {
        lemma_first_where(s, p, k as int);
    }
    None
}

fn credit_delta(aggs: &mut Vec<SummaryAggregate>, players: &Vec<PointHistoryPlayerBreakdownDto>, d: &PointBattleDeltaDto)
    requires
        totals_fit(summary_step(aggs_view(old(aggs)@), players@, *d)),
    ensures
        aggs_view(final(aggs)@) == summary_step(aggs_view(old(aggs)@), players@, *d),
{
    let ghost before = aggs_view(aggs@);
    let found = find_player(players, d.match_player_id);
    match found {
        None => {},
        Some(pi) => {
            let p = &players[pi];
            let ident: &str = match &p.pubg_account_id {
                Some(a) => a.as_str(),
                None => p.pubg_player_name.as_str(),
            };
            assert(ident@ == player_ident(*p));
            let slot = find_aggregate(aggs, ident, p.is_self);
            match slot {
                None => {
                    let fresh = SummaryAggregate {
                        ident: ident.to_string(),
                        is_self: p.is_self,
                        teammate_id: p.teammate_id,
                        pubg_player_name: p.pubg_player_name.clone(),
                        fallback_display_nickname: clone_opt(&p.display_nickname_snapshot),
                        total_delta: d.delta,
                    };
                    aggs.push(fresh);
                    proof {
                        assert(aggs_view(aggs@) =~= summary_step(before, players@, *d));
                    }
                },
                Some(k) => {
                    let old_entry = &aggs[k];
                    let ghost ov = before[k as int];
                    assert(ov == agg_view(*old_entry));
                    let ghost stepped = summary_step(before, players@, *d);
                    assert(stepped[k as int].total == old_entry.total_delta + d.delta);
                    assert(i64::MIN <= stepped[k as int].total <= i64::MAX);
                    let teammate_id = if old_entry.teammate_id.is_none() {
                        p.teammate_id
                    } else {
                        old_entry.teammate_id
                    };
                    let fallback = if old_entry.fallback_display_nickname.is_none() {
                        clone_opt(&p.display_nickname_snapshot)
                    } else {
                        clone_opt(&old_entry.fallback_display_nickname)
                    };
                    let updated = SummaryAggregate {
                        ident: old_entry.ident.clone(),
                        is_self: old_entry.is_self,
                        teammate_id,
                        pubg_player_name: old_entry.pubg_player_name.clone(),
                        fallback_display_nickname: fallback,
                        total_delta: old_entry.total_delta + d.delta,
                    };
                    aggs.set(k, updated);
                    proof {
                        assert(aggs_view(aggs@) =~= stepped);
                    }
                },
            }
        },
    }
}

/// Whether crediting the delta keeps every running total within `i64`.
fn step_fits(aggs: &Vec<SummaryAggregate>, players: &Vec<PointHistoryPlayerBreakdownDto>, d: &PointBattleDeltaDto) -> (res: bool)
    requires
        totals_fit(aggs_view(aggs@)),
    ensures
        res == totals_fit(summary_step(aggs_view(aggs@), players@, *d)),
{
    let ghost before = aggs_view(aggs@);
    let found = find_player(players, d.match_player_id);
    match found {
        None => true,
        Some(pi) => {
            let p = &players[pi];
            let ident: &str = match &p.pubg_account_id {
                Some(a) => a.as_str(),
                None => p.pubg_player_name.as_str(),
            };
            assert(ident@ == player_ident(*p));
            let slot = find_aggregate(aggs, ident, p.is_self);
            match slot {
                None => {
                    proof {
                        let stepped = summary_step(before, players@, *d);
                        assert forall|k: int| 0 <= k < stepped.len() implies i64::MIN <= #[trigger] stepped[k].total <= i64::MAX by {
                            if k < before.len() {
                                assert(stepped[k] == before[k]);
                            }
                        }
                    }
                    true
                },
                Some(k) => {
                    let ghost stepped = summary_step(before, players@, *d);
                    assert(before[k as int] == agg_view(aggs@[k as int]));
                    assert(stepped[k as int].total == aggs@[k as int].total_delta + d.delta);
                    let total: i128 = aggs[k].total_delta as i128 + d.delta as i128;
                    if i64::MIN as i128 <= total && total <= i64::MAX as i128 {
                        proof {
                            assert forall|j: int| 0 <= j < stepped.len() implies i64::MIN <= #[trigger] stepped[j].total <= i64::MAX by {
                                if j != k {
                                    assert(stepped[j] == before[j]);
                                }
                            }
                        }
                        true
                    } else {
                        false
                    }
                },
            }
        },
    }
}

/// Whether every running total of the summary stays within `i64` (what
/// `summarize_unsettled` asks of its groups).
pub fn unsettled_summary_fits(groups: &Vec<PointHistoryMatchGroupDto>) -> (res: bool)
    ensures
        res == summary_fits(groups@),
{
    let mut aggs: Vec<SummaryAggregate> = Vec::new();
    let mut g: usize = 0;
    assert(aggs_view(aggs@) =~= summary_fold(groups@, 0));
    while g < groups.len()
        invariant
            g <= groups@.len(),
            aggs_view(aggs@) == summary_fold(groups@, g as int),
            totals_fit(summary_fold(groups@, g as int)),
            forall|h: int, n: int|
                0 <= h < g && 0 <= n <= groups@[h].battle_deltas@.len() ==> totals_fit(
                    #[trigger] summary_deltas(summary_fold(groups@, h), groups@[h].players@, groups@[h].battle_deltas@, n),
                ),
        decreases groups.len() - g,
    {
        let grp = &groups[g];
        let mut n: usize = 0;
        while n < grp.battle_deltas.len()
            invariant
                g < groups@.len(),
                *grp == groups@[g as int],
                n <= grp.battle_deltas@.len(),
                aggs_view(aggs@) == summary_deltas(summary_fold(groups@, g as int), grp.players@, grp.battle_deltas@, n as int),
                forall|m: int| 0 <= m <= n ==> totals_fit(
                    #[trigger] summary_deltas(summary_fold(groups@, g as int), grp.players@, grp.battle_deltas@, m),
                ),
            decreases grp.battle_deltas.len() - n,
        {
            if !step_fits(&aggs, &grp.players, &grp.battle_deltas[n]) {
                proof {
                    let m = n + 1;
                    assert(!totals_fit(summary_deltas(summary_fold(groups@, g as int), groups@[g as int].players@, groups@[g as int].battle_deltas@, m)));
                }
                return false;
            }
            credit_delta(&mut aggs, &grp.players, &grp.battle_deltas[n]);
            n = n + 1;
        }
        proof {
            assert(summary_fold(groups@, g + 1) == summary_deltas(summary_fold(groups@, g as int), groups@[g as int].players@, groups@[g as int].battle_deltas@, groups@[g as int].battle_deltas@.len() as int));
        }
        g = g + 1;
    }
    true
}

fn nickname_for(a: &SummaryAggregate, teammates: &Vec<TeammateNickname>) -> (res: Option<String>)
    ensures
        opt_text(res) == shown_nickname(agg_view(*a), teammates@),
{
    match a.teammate_id {
        Some(t) => {
            let ghost p = has_teammate_id(t);
            let mut k: usize = 0;
            while k < teammates.len()
                invariant
                    k <= teammates@.len(),
                    p == has_teammate_id(t),
                    a.teammate_id == Some(t),
                    forall|j: int| 0 <= j < k ==> !p(#[trigger] teammates@[j]),
                decreases teammates.len() - k,
            {
                if teammates[k].teammate_id == t {
                    proof {
                        lemma_first_where(teammates@, p, k as int);
                    }
                    return clone_opt(&teammates[k].display_nickname);
                }
                k = k + 1;
            }
            proof {
                lemma_first_where(teammates@, p, k as int);
            }
            clone_opt(&a.fallback_display_nickname)
        },
        None => clone_opt(&a.fallback_display_nickname),
    }
}

/// The summary of the unsettled match groups (newest first, as listed): one line per player
/// with the sum of the player's battle deltas (see `summary_fold`), ranked by
/// `summary_order`. The rule shown is that of the newest group, or the active rule when no
/// match is unsettled.
pub fn summarize_unsettled(
    groups: &Vec<PointHistoryMatchGroupDto>,
    active_rule: Option<(i64, String)>,
    teammates: &Vec<TeammateNickname>,
) -> (res: UnsettledBattleSummaryDto)
    requires
        summary_fits(groups@),
        groups@.len() <= i64::MAX,
    ensures
        groups@.len() == 0 ==> {
            &&& res.rule_id == (match active_rule {
                Some(r) => Some(r.0),
                None => None,
            })
            &&& opt_text(res.active_rule_name) == (match active_rule {
                Some(r) => Some(r.1@),
                None => None,
            })
            &&& res.unsettled_match_count == 0
            &&& res.players@.len() == 0
        },
        groups@.len() > 0 ==> {
            &&& res.rule_id == Some(groups@[0].rule_id)
            &&& opt_text(res.active_rule_name) == Some(groups@[0].rule_name_snapshot@)
            &&& res.unsettled_match_count == groups@.len()
            &&& res.players@.map_values(|p: UnsettledPlayerSummaryDto| summary_view(p)).to_multiset()
                == summary_fold(groups@, groups@.len() as int).map_values(
                |a: SummaryAggV| summary_line(a, teammates@),
            ).to_multiset()
            &&& sorted_by(res.players@, |p: UnsettledPlayerSummaryDto| summary_order(p))
            &&& stable_order(
                summary_fold(groups@, groups@.len() as int).map_values(|a: SummaryAggV| summary_line(a, teammates@)),
                res.players@.map_values(|p: UnsettledPlayerSummaryDto| summary_view(p)),
                |v: SummaryV| summary_order_v(v),
            )
        },
{
    if groups.len() == 0 {
        let (rule_id, active_rule_name) = match active_rule {
            Some(r) => (Some(r.0), Some(r.1)),
            None => (None, None),
        };
        return UnsettledBattleSummaryDto {
            rule_id,
            active_rule_name,
            unsettled_match_count: 0,
            players: Vec::new(),
        };
    }
    let mut aggs: Vec<SummaryAggregate> = Vec::new();
    let mut g: usize = 0;
    while g < groups.len()
        invariant
            g <= groups@.len(),
            summary_fits(groups@),
            aggs_view(aggs@) == summary_fold(groups@, g as int),
        decreases groups.len() - g,
    {
        let grp = &groups[g];
        let mut n: usize = 0;
        while n < grp.battle_deltas.len()
            invariant
                g < groups@.len(),
                *grp == groups@[g as int],
                n <= grp.battle_deltas@.len(),
                summary_fits(groups@),
                aggs_view(aggs@) == summary_deltas(summary_fold(groups@, g as int), grp.players@, grp.battle_deltas@, n as int),
            decreases grp.battle_deltas.len() - n,
        {
            assert(totals_fit(summary_deltas(summary_fold(groups@, g as int), groups@[g as int].players@, groups@[g as int].battle_deltas@, n + 1)));
            credit_delta(&mut aggs, &grp.players, &grp.battle_deltas[n]);
            n = n + 1;
        }
        g = g + 1;
    }
    let mut lines: Vec<UnsettledPlayerSummaryDto> = Vec::new();
    let mut keys: Vec<Vec<KeyPart>> = Vec::new();
    let mut i: usize = 0;
    while i < aggs.len()
        invariant
            i <= aggs@.len(),
            lines@.len() == i,
            keys@.len() == i,
            lines@.map_values(|p: UnsettledPlayerSummaryDto| summary_view(p))
                == aggs_view(aggs@).take(i as int).map_values(|a: SummaryAggV| summary_line(a, teammates@)),
            forall|k: int| 0 <= k < i ==> key_view(#[trigger] keys@[k]@) == summary_order(lines@[k]),
        decreases aggs.len() - i,
    {
        let a = &aggs[i];
        let line = UnsettledPlayerSummaryDto {
            teammate_id: a.teammate_id,
            pubg_player_name: a.pubg_player_name.clone(),
            display_nickname: nickname_for(a, teammates),
            is_self: a.is_self,
            total_delta: a.total_delta,
        };
        let rank: i128 = match a.teammate_id {
            None => -18446744073709551616i128,
            Some(t) => t as i128,
        };
        let mut key: Vec<KeyPart> = Vec::new();
        key.push(KeyPart::Int(-(a.total_delta as i128)));
        key.push(KeyPart::Text(a.pubg_player_name.clone()));
        key.push(KeyPart::Int(rank));
        proof {
            assert(key_view(key@) =~= summary_order(line));
        }
        let ghost old_lines = lines@;
        let ghost lv = summary_view(line);
        assert(lv == summary_line(aggs_view(aggs@)[i as int], teammates@));
        lines.push(line);
        keys.push(key);
        proof {
            assert(aggs_view(aggs@).take(i + 1) =~= aggs_view(aggs@).take(i as int).push(aggs_view(aggs@)[i as int]));
            assert(lines@.map_values(|p: UnsettledPlayerSummaryDto| summary_view(p))
                =~= old_lines.map_values(|p: UnsettledPlayerSummaryDto| summary_view(p)).push(lv));
            assert(forall|k: int| 0 <= k < i ==> lines@[k] == old_lines[k]);
        }
        i = i + 1;
    }
    assert(aggs_view(aggs@).take(aggs@.len() as int) =~= aggs_view(aggs@));
    let ghost built = lines@;
    let players = sort_by_keys(lines, keys, Ghost(|p: UnsettledPlayerSummaryDto| summary_order(p)));
    proof {
        lemma_map_multiset(players@, built, |p: UnsettledPlayerSummaryDto| summary_view(p));
        assert forall|t: UnsettledPlayerSummaryDto| #[trigger] summary_order(t) == summary_order_v(summary_view(t)) by {}
        lemma_stable_order_views(
            built,
            players@,
            |p: UnsettledPlayerSummaryDto| summary_order(p),
            |p: UnsettledPlayerSummaryDto| summary_view(p),
            |v: SummaryV| summary_order_v(v),
        );
    }
    UnsettledBattleSummaryDto {
        rule_id: Some(groups[0].rule_id),
        active_rule_name: Some(groups[0].rule_name_snapshot.clone()),
        unsettled_match_count: groups.len() as i64,
        players,
    }
}

// ----- the ledger balances ---------------------------------------------------------------

/// The sum of the running totals.
pub open spec fn summary_total(acc: Seq<SummaryAggV>) -> int
    decreases acc.len(),
{
    if acc.len() == 0 {
        0
    } else {
        summary_total(acc.drop_last()) + acc.last().total
    }
}

/// The sum of the first `n` deltas that name one of the players.
pub open spec fn credited_sum(players: Seq<PointHistoryPlayerBreakdownDto>, deltas: Seq<PointBattleDeltaDto>, n: int) -> int
    decreases n,
{
    if n <= 0 {
        0
    } else {
        credited_sum(players, deltas, n - 1) + if last_with_id(players, deltas[n - 1].match_player_id) >= 0 {
            deltas[n - 1].delta as int
        } else {
            0
        }
    }
}

proof fn lemma_total_update(acc: Seq<SummaryAggV>, k: int, x: SummaryAggV)
    requires
        0 <= k < acc.len(),
    ensures
        summary_total(acc.update(k, x)) == summary_total(acc) - acc[k].total + x.total,
    decreases acc.len(),
{
    let u = acc.update(k, x);
    if k == acc.len() - 1 {
        assert(u.drop_last() =~= acc.drop_last());
    } else {
        assert(u.drop_last() =~= acc.drop_last().update(k, x));
        lemma_total_update(acc.drop_last(), k, x);
    }
}

proof fn lemma_step_total(acc: Seq<SummaryAggV>, players: Seq<PointHistoryPlayerBreakdownDto>, d: PointBattleDeltaDto)
    ensures
        summary_total(summary_step(acc, players, d)) == summary_total(acc) + if last_with_id(players, d.match_player_id) >= 0 {
            d.delta as int
        } else {
            0
        },
{
    let pi = last_with_id(players, d.match_player_id);
    if pi >= 0 {
        let p = players[pi];
        let k = first_where(acc, same_player(player_ident(p), p.is_self));
        lemma_first_where_facts(acc, same_player(player_ident(p), p.is_self));
        if k < 0 {
            let x = summary_step(acc, players, d).last();
            assert(summary_step(acc, players, d).drop_last() =~= acc);
        } else {
            let a = acc[k];
            let y = SummaryAggV {
                ident: a.ident,
                is_self: a.is_self,
                teammate_id: if a.teammate_id is None {
                    p.teammate_id
                } else {
                    a.teammate_id
                },
                name: a.name,
                fallback: if a.fallback is None {
                    opt_text(p.display_nickname_snapshot)
                } else {
                    a.fallback
                },
                total: a.total + d.delta,
            };
            lemma_total_update(acc, k, y);
        }
    }
}

proof fn lemma_deltas_total(
    acc: Seq<SummaryAggV>,
    players: Seq<PointHistoryPlayerBreakdownDto>,
    deltas: Seq<PointBattleDeltaDto>,
    n: int,
)
    requires
        0 <= n <= deltas.len(),
    ensures
        summary_total(summary_deltas(acc, players, deltas, n)) == summary_total(acc) + credited_sum(players, deltas, n),
    decreases n,
{
    if n > 0 {
        lemma_deltas_total(acc, players, deltas, n - 1);
        lemma_step_total(summary_deltas(acc, players, deltas, n - 1), players, deltas[n - 1]);
    }
}

proof fn lemma_last_with_id_found(ps: Seq<PointHistoryPlayerBreakdownDto>, j: int)
    requires
        0 <= j < ps.len(),
    ensures
        last_with_id(ps, ps[j].match_player_id) >= 0,
    decreases ps.len(),
{
    if j < ps.len() - 1 && ps.last().match_player_id != ps[j].match_player_id {
        assert(ps.drop_last()[j] == ps[j]);
        lemma_last_with_id_found(ps.drop_last(), j);
    }
}

/// The deltas of a group are the battle deltas of its players, one per player in order.
pub open spec fn deltas_of_players(g: PointHistoryMatchGroupDto) -> bool {
    &&& g.battle_deltas@.len() == g.players@.len()
    &&& ids_unique(g.players@)
    &&& forall|i: int|
        0 <= i < g.players@.len() ==> (#[trigger] g.battle_deltas@[i]).match_player_id == g.players@[i].match_player_id
            && g.battle_deltas@[i].delta == battle_delta(g.players@, g.players@[i].match_player_id)
}

proof fn lemma_credited_is_delta_sum(g: PointHistoryMatchGroupDto, n: int)
    requires
        deltas_of_players(g),
        0 <= n <= g.players@.len(),
    ensures
        credited_sum(g.players@, g.battle_deltas@, n) == delta_sum(g.players@, n),
    decreases n,
{
    if n > 0 {
        lemma_credited_is_delta_sum(g, n - 1);
        assert(g.battle_deltas@[n - 1].match_player_id == g.players@[n - 1].match_player_id);
        lemma_last_with_id_found(g.players@, n - 1);
    }
}

proof fn lemma_fold_total(groups: Seq<PointHistoryMatchGroupDto>, g: int)
    requires
        0 <= g <= groups.len(),
        forall|k: int| 0 <= k < groups.len() ==> deltas_of_players(#[trigger] groups[k]),
    ensures
        summary_total(summary_fold(groups, g)) == 0,
    decreases g,
{
    if g > 0 {
        lemma_fold_total(groups, g - 1);
        let grp = groups[g - 1];
        assert(deltas_of_players(grp));
        lemma_deltas_total(summary_fold(groups, g - 1), grp.players@, grp.battle_deltas@, grp.battle_deltas@.len() as int);
        lemma_credited_is_delta_sum(grp, grp.players@.len() as int);
        law_battle_is_zero_sum(grp.players@);
    }
}

/// The unsettled ledger balances: when every group's deltas are the battle deltas of its
/// players (as the history groups are built), the players' summed totals add up to zero.
pub proof fn law_unsettled_summary_balances(groups: Seq<PointHistoryMatchGroupDto>)
    requires
        forall|k: int| 0 <= k < groups.len() ==> deltas_of_players(#[trigger] groups[k]),
    ensures
        summary_total(summary_fold(groups, groups.len() as int)) == 0,
{
    lemma_fold_total(groups, groups.len() as int);
}

/// No two running summaries are of the same person.
pub open spec fn summaries_distinct(acc: Seq<SummaryAggV>) -> bool {
    forall|i: int, j: int|
        0 <= i < j < acc.len() ==> !((#[trigger] acc[i]).ident == (#[trigger] acc[j]).ident && acc[i].is_self == acc[j].is_self)
}

proof fn lemma_step_distinct(acc: Seq<SummaryAggV>, players: Seq<PointHistoryPlayerBreakdownDto>, d: PointBattleDeltaDto)
    requires
        summaries_distinct(acc),
    ensures
        summaries_distinct(summary_step(acc, players, d)),
{
    let pi = last_with_id(players, d.match_player_id);
    if pi >= 0 {
        let p = players[pi];
        let pred = same_player(player_ident(p), p.is_self);
        lemma_first_where_facts(acc, pred);
        let out = summary_step(acc, players, d);
        assert forall|i: int, j: int| 0 <= i < j < out.len() implies !((#[trigger] out[i]).ident == (#[trigger] out[j]).ident
            && out[i].is_self == out[j].is_self) by {
            if first_where(acc, pred) < 0 && j == acc.len() {
                assert(!pred(acc[i]));
            }
        }
    }
}

proof fn lemma_deltas_distinct(
    acc: Seq<SummaryAggV>,
    players: Seq<PointHistoryPlayerBreakdownDto>,
    deltas: Seq<PointBattleDeltaDto>,
    n: int,
)
    requires
        summaries_distinct(acc),
    ensures
        summaries_distinct(summary_deltas(acc, players, deltas, n)),
    decreases n,
{
    if n > 0 {
        lemma_deltas_distinct(acc, players, deltas, n - 1);
        lemma_step_distinct(summary_deltas(acc, players, deltas, n - 1), players, deltas[n - 1]);
    }
}

proof fn lemma_fold_distinct(groups: Seq<PointHistoryMatchGroupDto>, g: int)
    ensures
        summaries_distinct(summary_fold(groups, g)),
    decreases g,
{
    if g > 0 {
        lemma_fold_distinct(groups, g - 1);
        let grp = groups[g - 1];
        lemma_deltas_distinct(summary_fold(groups, g - 1), grp.players@, grp.battle_deltas@, grp.battle_deltas@.len() as int);
    }
}

/// The same person is summed once: no two lines of the unsettled summary share an account
/// id (or name, when there is none) and `is_self`, whatever teammate records they had.
pub proof fn law_unsettled_summary_merges_players(groups: Seq<PointHistoryMatchGroupDto>)
    ensures
        summaries_distinct(summary_fold(groups, groups.len() as int)),
{
    lemma_fold_distinct(groups, groups.len() as int);
}

} // verus!
