//! What storing a fetched match writes: the match, its players with their points under the
//! active rule, their point records, the teammates last seen, and the telemetry records.
//!
//! The application fetches the match, looks up the teammates and writes the rows; the
//! decisions are made here. Damage values are thousandths of a hit point.

use vstd::prelude::*;
use crate::engine::calculator::{
    calculate_points, calculated_for, contains_text, identity_key_spec, player_identity_key, CalculatedPoints,
    PlayerStats, RuleConfig,
};
use crate::error::{app_error, AppError};
use crate::parser::telemetry::TelemetryKillEvent;
use crate::repository::matches::{CreateMatchInput, CreateMatchKillEventInput, CreateMatchPlayerInput};
use crate::repository::points::CreatePointRecordInput;
use crate::repository::rules::PointRuleDto;
use crate::repository::teammates::TeammateDto;
use crate::text::{ascii_lower_seq, eq_ignore_ascii_case, str_eq, trim, trim_seq};

verus! {

pub open spec fn text_of(o: Option<String>) -> Option<Seq<char>> {
    match o {
        Some(s) => Some(s@),
        None => None,
    }
}

// ----- the match row ---------------------------------------------------------------------

/// When a match started, given when it ended and how long it lasted, as RFC 3339 in UTC;
/// none when the end does not read as RFC 3339 or the start is not a time that chrono holds.
pub uninterp spec fn start_from_end(end_at: Seq<char>, duration_seconds: i64) -> Option<Seq<char>>;

/// `chrono::DateTime::parse_from_rfc3339` of the end, minus `TimeDelta::try_seconds` of the
/// duration with `checked_sub_signed`, in UTC as `to_rfc3339`. None comes back when the end
/// does not parse, when the duration is beyond a time span, or when the start leaves
/// chrono's date range; none of these calls panics. The text is only named.
#[verifier::external_body]
fn start_before(end_at: &str, duration_seconds: i64) -> (res: Option<String>)
    ensures
        text_of(res) == start_from_end(end_at@, duration_seconds),
{
    let end = chrono::DateTime::parse_from_rfc3339(end_at).ok()?;
    let span = chrono::TimeDelta::try_seconds(duration_seconds)?;
    end.checked_sub_signed(span).map(|start| start.with_timezone(&chrono::Utc).to_rfc3339())
}

/// The start derived from the end and the duration, when both are known.
pub open spec fn derived_start(end_at: Option<Seq<char>>, duration_seconds: Option<i64>) -> Option<Seq<char>> {
    match (end_at, duration_seconds) {
        (Some(e), Some(d)) => start_from_end(e, d),
        _ => None,
    }
}

/// The start of a match derived from its end and duration.
pub fn derive_match_start_at(match_end_at: Option<&str>, duration_seconds: Option<i64>) -> (res: Option<String>)
    ensures
        text_of(res) == derived_start(
            match match_end_at {
                Some(e) => Some(e@),
                None => None,
            },
            duration_seconds,
        ),
{
    let end = match match_end_at {
        Some(e) => e,
        None => {
            return None;
        },
    };
    let d = match duration_seconds {
        Some(d) => d,
        None => {
            return None;
        },
    };
    start_before(end, d)
}

/// What the API and the telemetry say of a match, as the match row needs it.
#[derive(Debug, Clone)]
pub struct FetchedMatch {
    pub match_id: String,
    pub platform: String,
    pub map_name: Option<String>,
    pub game_mode: Option<String>,
    pub created_at: String,
    pub duration: Option<i64>,
    pub telemetry_url: String,
    pub telemetry_start_at: Option<String>,
    pub telemetry_end_at: Option<String>,
}

/// The match row: the telemetry's times, the end falling back to the creation time and the
/// start to the one derived from the end and the duration; status "syncing".
pub fn match_row_input(m: &FetchedMatch) -> (res: CreateMatchInput)
    ensures
        res.match_id@ == m.match_id@,
        res.platform@ == m.platform@,
        text_of(res.map_name) == text_of(m.map_name),
        text_of(res.game_mode) == text_of(m.game_mode),
        res.played_at@ == m.created_at@,
        text_of(res.match_end_at) == match m.telemetry_end_at {
            Some(e) => Some(e@),
            None => Some(m.created_at@),
        },
        text_of(res.match_start_at) == match m.telemetry_start_at {
            Some(s) => Some(s@),
            None => derived_start(text_of(res.match_end_at), m.duration),
        },
        text_of(res.telemetry_url) == Some(m.telemetry_url@),
        res.status@ == "syncing"@,
{
    let end: String = match &m.telemetry_end_at {
        Some(e) => e.clone(),
        None => m.created_at.clone(),
    };
    let start = match &m.telemetry_start_at {
        Some(s) => Some(s.clone()),
        None => derive_match_start_at(Some(end.as_str()), m.duration),
    };
    let map_name = match &m.map_name {
        Some(s) => Some(s.clone()),
        None => None,
    };
    let game_mode = match &m.game_mode {
        Some(s) => Some(s.clone()),
        None => None,
    };
    CreateMatchInput {
        match_id: m.match_id.clone(),
        platform: m.platform.clone(),
        map_name,
        game_mode,
        played_at: m.created_at.clone(),
        match_start_at: start,
        match_end_at: Some(end),
        telemetry_url: Some(m.telemetry_url.clone()),
        status: "syncing".to_string(),
    }
}

/// The rule that points are computed with: the active one; none is an error.
pub fn active_rule_config(active_rule: Option<PointRuleDto>) -> (res: Result<RuleConfig, AppError>)
    ensures
        active_rule is None ==> (res matches Err(AppError::Message(m)) && m@ == "No active point rule configured."@),
        active_rule matches Some(r) ==> (res matches Ok(c) && c.id == r.id && c.name == r.name
            && c.damage_points_per_damage == r.damage_points_per_damage && c.kill_points == r.kill_points
            && c.revive_points == r.revive_points && c.rounding_mode == r.rounding_mode),
{
    match active_rule {
        None => Err(app_error("No active point rule configured.")),
        Some(r) => Ok(
            RuleConfig {
                id: r.id,
                name: r.name,
                damage_points_per_damage: r.damage_points_per_damage,
                kill_points: r.kill_points,
                revive_points: r.revive_points,
                rounding_mode: r.rounding_mode,
            },
        ),
    }
}

// ----- who plays for points --------------------------------------------------------------

pub open spec fn is_self_stats(p: PlayerStats, self_name: Seq<char>) -> bool {
    ascii_lower_seq(p.pubg_player_name@) == ascii_lower_seq(self_name)
}

/// The index of the account's own player (the first whose name matches), or -1.
pub open spec fn self_row(stats: Seq<PlayerStats>, self_name: Seq<char>, n: int) -> int
    decreases n,
{
    if n <= 0 {
        -1
    } else {
        let r = self_row(stats, self_name, n - 1);
        if r >= 0 {
            r
        } else if is_self_stats(stats[n - 1], self_name) {
            n - 1
        } else {
            -1
        }
    }
}

pub open spec fn self_team_of(stats: Seq<PlayerStats>, self_name: Seq<char>) -> Option<i64> {
    let k = self_row(stats, self_name, stats.len() as int);
    if k >= 0 {
        stats[k].team_id
    } else {
        None
    }
}

pub open spec fn self_account_of(stats: Seq<PlayerStats>, self_name: Seq<char>) -> Option<Seq<char>> {
    let k = self_row(stats, self_name, stats.len() as int);
    if k >= 0 {
        Some(stats[k].pubg_account_id@)
    } else {
        None
    }
}

pub open spec fn stats_key(p: PlayerStats) -> Seq<char> {
    identity_key_spec(p.pubg_account_id@, p.pubg_player_name@)
}

/// The teammate on record for an identity key: that of the last player with the key whose
/// teammate was found.
pub open spec fn teammate_for(stats: Seq<PlayerStats>, teammates: Seq<Option<TeammateDto>>, key: Seq<char>, n: int) -> Option<TeammateDto>
    decreases n,
{
    if n <= 0 {
        None
    } else if teammates[n - 1] is Some && stats_key(stats[n - 1]) == key {
        teammates[n - 1]
    } else {
        teammate_for(stats, teammates, key, n - 1)
    }
}

pub open spec fn same_team(p: PlayerStats, self_team: Option<i64>) -> bool {
    self_team is Some && p.team_id == self_team
}

/// Whether a player's points count: the account's own player; a player of its team whose
/// teammate record (if any) has points enabled; nobody else.
pub open spec fn points_enabled(stats: Seq<PlayerStats>, teammates: Seq<Option<TeammateDto>>, self_name: Seq<char>, i: int) -> bool {
    let p = stats[i];
    if is_self_stats(p, self_name) {
        true
    } else if same_team(p, self_team_of(stats, self_name)) {
        match teammates[i] {
            Some(t) => t.is_points_enabled,
            None => true,
        }
    } else {
        false
    }
}

/// The account's own row among the first `n`, as the exec search finds it.
fn find_self_row(stats: &Vec<PlayerStats>, self_player_name: &str) -> (res: Option<usize>)
    ensures
        match res {
            Some(k) => k < stats@.len() && self_row(stats@, self_player_name@, stats@.len() as int) == k,
            None => self_row(stats@, self_player_name@, stats@.len() as int) == -1,
        },
{
    let mut i: usize = 0;
    while i < stats.len()
        invariant
            i <= stats@.len(),
            self_row(stats@, self_player_name@, i as int) == -1,
        decreases stats.len() - i,
    {
        if eq_ignore_ascii_case(stats[i].pubg_player_name.as_str(), self_player_name) {
            proof {
                lemma_self_row_stays(stats@, self_player_name@, i + 1, stats@.len() as int);
            }
            return Some(i);
        }
        i = i + 1;
    }
    None
}

proof fn lemma_self_row_stays(stats: Seq<PlayerStats>, self_name: Seq<char>, n: int, m: int)
    requires
        0 <= n <= m,
        self_row(stats, self_name, n) >= 0,
    ensures
        self_row(stats, self_name, m) == self_row(stats, self_name, n),
    decreases m - n,
{
    if m > n {
        lemma_self_row_stays(stats, self_name, n, m - 1);
    }
}

fn copy_opt_text(o: &Option<String>) -> (res: Option<String>)
    ensures
        res == *o,
{
    match o {
        Some(s) => Some(s.clone()),
        None => None,
    }
}

fn copy_teammate(t: &TeammateDto) -> (res: TeammateDto)
    ensures
        res == *t,
{
    TeammateDto {
        id: t.id,
        account_id: t.account_id,
        platform: t.platform.clone(),
        pubg_account_id: copy_opt_text(&t.pubg_account_id),
        pubg_player_name: t.pubg_player_name.clone(),
        display_nickname: copy_opt_text(&t.display_nickname),
        is_friend: t.is_friend,
        is_points_enabled: t.is_points_enabled,
        total_points: t.total_points,
        last_seen_at: copy_opt_text(&t.last_seen_at),
        created_at: t.created_at.clone(),
        updated_at: t.updated_at.clone(),
    }
}

fn find_teammate(stats: &Vec<PlayerStats>, keys: &Vec<String>, teammates: &Vec<Option<TeammateDto>>, key: &String) -> (res: Option<TeammateDto>)
    requires
        keys@.len() == stats@.len(),
        teammates@.len() == stats@.len(),
        forall|k: int| 0 <= k < stats@.len() ==> (#[trigger] keys@[k])@ == stats_key(stats@[k]),
    ensures
        res == teammate_for(stats@, teammates@, key@, stats@.len() as int),
{
    let mut n: usize = stats.len();
    while n > 0
        invariant
            n <= stats@.len(),
            keys@.len() == stats@.len(),
            teammates@.len() == stats@.len(),
            forall|k: int| 0 <= k < stats@.len() ==> (#[trigger] keys@[k])@ == stats_key(stats@[k]),
            teammate_for(stats@, teammates@, key@, stats@.len() as int) == teammate_for(stats@, teammates@, key@, n as int),
        decreases n,
    {
        if teammates[n - 1].is_some() && keys[n - 1] == *key {
            return match &teammates[n - 1] {
                Some(t) => Some(copy_teammate(t)),
                None => None,
            };
        }
        n = n - 1;
    }
    None
}

/// What storing a match writes about its players.
#[derive(Debug, Clone)]
pub struct PlayersPersistPlan {
    pub enabled_player_keys: Vec<String>,
    pub calculated_points: Vec<CalculatedPoints>,
    pub players: Vec<CreateMatchPlayerInput>,
    pub teammate_ids: Vec<Option<i64>>,
    pub last_seen_teammate_ids: Vec<i64>,
}

/// The stored row of a player: its figures and points, its teammate and the nickname
/// snapshot (the teammate's nickname, else the player's name), and whether it is the
/// account's own player (same account id as the own player).
pub open spec fn player_row_ok(
    row: CreateMatchPlayerInput,
    calc: CalculatedPoints,
    match_id: Seq<char>,
    teammate: Option<TeammateDto>,
    self_account: Option<Seq<char>>,
) -> bool {
    &&& row.match_id@ == match_id
    &&& row.teammate_id == match teammate {
        Some(t) => Some(t.id),
        None => None,
    }
    &&& text_of(row.pubg_account_id) == Some(calc.pubg_account_id@)
    &&& row.pubg_player_name@ == calc.pubg_player_name@
    &&& text_of(row.display_nickname_snapshot) == match teammate {
        Some(t) => match t.display_nickname {
            Some(n) => Some(n@),
            None => Some(calc.pubg_player_name@),
        },
        None => Some(calc.pubg_player_name@),
    }
    &&& row.team_id == calc.team_id
    &&& row.damage == calc.damage
    &&& row.kills == calc.kills
    &&& row.assists == calc.assists
    &&& row.revives == calc.revives
    &&& row.placement == calc.placement
    &&& row.is_self == (self_account == Some(calc.pubg_account_id@))
    &&& row.is_points_enabled_snapshot == calc.is_points_enabled
    &&& row.points == calc.total_points
}

/// The teammates whose last-seen time moves to this match: those of the own team's other
/// players, in order.
pub open spec fn last_seen_upto(stats: Seq<PlayerStats>, teammates: Seq<Option<TeammateDto>>, self_name: Seq<char>, n: int) -> Seq<i64>
    decreases n,
{
    if n <= 0 {
        Seq::empty()
    } else {
        let prev = last_seen_upto(stats, teammates, self_name, n - 1);
        let p = stats[n - 1];
        if !is_self_stats(p, self_name) && same_team(p, self_team_of(stats, self_name)) {
            match teammate_for(stats, teammates, stats_key(p), stats.len() as int) {
                Some(t) => prev.push(t.id),
                None => prev,
            }
        } else {
            prev
        }
    }
}

/// The players of a fetched match as stored: whose points count (see `points_enabled`),
/// everybody's points under the rule, their rows, and the teammates last seen.
/// `teammates[i]` is the teammate record found for `player_stats[i]`.
pub fn plan_players(
    match_id: &str,
    self_player_name: &str,
    player_stats: &Vec<PlayerStats>,
    teammates: &Vec<Option<TeammateDto>>,
    rule: &RuleConfig,
) -> (res: PlayersPersistPlan)
    requires
        teammates@.len() == player_stats@.len(),
    ensures
        forall|key: Seq<char>|
            contains_text(res.enabled_player_keys@, key) <==> exists|i: int|
                0 <= i < player_stats@.len() && points_enabled(player_stats@, teammates@, self_player_name@, i)
                    && #[trigger] stats_key(player_stats@[i]) == key,
        res.calculated_points@.len() == player_stats@.len(),
        res.players@.len() == player_stats@.len(),
        res.teammate_ids@.len() == player_stats@.len(),
        forall|i: int|
            0 <= i < player_stats@.len() ==> {
                let p = #[trigger] player_stats@[i];
                let c = res.calculated_points@[i];
                let spec = calculated_for(p, *rule, res.enabled_player_keys@);
                let t = teammate_for(player_stats@, teammates@, stats_key(p), player_stats@.len() as int);
                &&& c.pubg_account_id == p.pubg_account_id
                &&& c.pubg_player_name == p.pubg_player_name
                &&& c.damage == p.damage
                &&& c.kills == p.kills
                &&& c.assists == p.assists
                &&& c.revives == p.revives
                &&& c.team_id == p.team_id
                &&& c.placement == p.placement
                &&& c.is_points_enabled == spec.0
                &&& c.damage_points == spec.1
                &&& c.kill_points == spec.2
                &&& c.revive_points == spec.3
                &&& c.total_points == spec.4
                &&& player_row_ok(res.players@[i], c, match_id@, t, self_account_of(player_stats@, self_player_name@))
                &&& res.teammate_ids@[i] == match t {
                    Some(tm) => Some(tm.id),
                    None => None,
                }
            },
        res.last_seen_teammate_ids@ == last_seen_upto(player_stats@, teammates@, self_player_name@, player_stats@.len() as int),
{
    let stats = player_stats;
    let me = find_self_row(stats, self_player_name);
    let self_team: Option<i64> = match me {
        Some(k) => stats[k].team_id,
        None => None,
    };
    let self_account: Option<String> = match me {
        Some(k) => Some(stats[k].pubg_account_id.clone()),
        None => None,
    };
    let ghost st = self_team_of(stats@, self_player_name@);
    let ghost sa = self_account_of(stats@, self_player_name@);
    assert(self_team == st);
    assert(text_of(self_account) == sa);
    let mut keys: Vec<String> = Vec::new();
    let mut enabled_keys: Vec<String> = Vec::new();
    let mut i: usize = 0;
    while i < stats.len()
        invariant
            i <= stats@.len(),
            teammates@.len() == stats@.len(),
            self_team == st,
            st == self_team_of(stats@, self_player_name@),
            keys@.len() == i,
            forall|k: int| 0 <= k < i ==> (#[trigger] keys@[k])@ == stats_key(stats@[k]),
            forall|key: Seq<char>|
                contains_text(enabled_keys@, key) <==> exists|j: int|
                    0 <= j < i && points_enabled(stats@, teammates@, self_player_name@, j) && #[trigger] stats_key(stats@[j]) == key,
        decreases stats.len() - i,
    {
        let p = &stats[i];
        let key = player_identity_key(p.pubg_account_id.as_str(), p.pubg_player_name.as_str());
        let is_self = eq_ignore_ascii_case(p.pubg_player_name.as_str(), self_player_name);
        let is_same_team = self_team.is_some() && p.team_id == self_team;
        let enabled = if is_self {
            true
        } else if is_same_team {
            match &teammates[i] {
                Some(t) => t.is_points_enabled,
                None => true,
            }
        } else {
            false
        };
        assert(enabled == points_enabled(stats@, teammates@, self_player_name@, i as int));
        let ghost old_enabled = enabled_keys@;
        if enabled {
            enabled_keys.push(key.clone());
            proof {
                assert forall|k: Seq<char>| contains_text(enabled_keys@, k) <==> exists|j: int|
                    0 <= j < i + 1 && points_enabled(stats@, teammates@, self_player_name@, j) && #[trigger] stats_key(stats@[j]) == k by {
                    if contains_text(enabled_keys@, k) {
                        let q = choose|q: int| 0 <= q < enabled_keys@.len() && (#[trigger] enabled_keys@[q])@ == k;
                        if q < old_enabled.len() {
                            assert(old_enabled[q] == enabled_keys@[q]);
                            assert(contains_text(old_enabled, k));
                        } else {
                            assert(stats_key(stats@[i as int]) == k);
                        }
                    }
                    if exists|j: int| 0 <= j < i + 1 && points_enabled(stats@, teammates@, self_player_name@, j) && #[trigger] stats_key(stats@[j]) == k {
                        let j = choose|j: int| 0 <= j < i + 1 && points_enabled(stats@, teammates@, self_player_name@, j) && #[trigger] stats_key(stats@[j]) == k;
                        if j < i {
                            assert(contains_text(old_enabled, k));
                            let q = choose|q: int| 0 <= q < old_enabled.len() && (#[trigger] old_enabled[q])@ == k;
                            assert(enabled_keys@[q] == old_enabled[q]);
                        } else {
                            assert(enabled_keys@[enabled_keys@.len() - 1]@ == k);
                        }
                    }
                }
            }
        } else {
            proof {
                assert forall|k: Seq<char>| contains_text(enabled_keys@, k) <==> exists|j: int|
                    0 <= j < i + 1 && points_enabled(stats@, teammates@, self_player_name@, j) && #[trigger] stats_key(stats@[j]) == k by {
                    if exists|j: int| 0 <= j < i + 1 && points_enabled(stats@, teammates@, self_player_name@, j) && #[trigger] stats_key(stats@[j]) == k {
                        let j = choose|j: int| 0 <= j < i + 1 && points_enabled(stats@, teammates@, self_player_name@, j) && #[trigger] stats_key(stats@[j]) == k;
                        assert(j < i);
                    }
                }
            }
        }
        keys.push(key);
        i = i + 1;
    }
    let mut last_seen: Vec<i64> = Vec::new();
    let mut n: usize = 0;
    while n < stats.len()
        invariant
            n <= stats@.len(),
            keys@.len() == stats@.len(),
            teammates@.len() == stats@.len(),
            forall|q: int| 0 <= q < stats@.len() ==> (#[trigger] keys@[q])@ == stats_key(stats@[q]),
            self_team == st,
            st == self_team_of(stats@, self_player_name@),
            last_seen@ == last_seen_upto(stats@, teammates@, self_player_name@, n as int),
            forall|key: Seq<char>|
                contains_text(enabled_keys@, key) <==> exists|j: int|
                    0 <= j < stats@.len() && points_enabled(stats@, teammates@, self_player_name@, j) && #[trigger] stats_key(stats@[j]) == key,
        decreases stats.len() - n,
    {
        let p = &stats[n];
        let is_self = eq_ignore_ascii_case(p.pubg_player_name.as_str(), self_player_name);
        if !is_self && self_team.is_some() && p.team_id == self_team {
            let t = find_teammate(stats, &keys, teammates, &keys[n]);
            assert(keys@[n as int]@ == stats_key(stats@[n as int]));
            match t {
                Some(tm) => {
                    last_seen.push(tm.id);
                },
                None => {},
            }
        }
        n = n + 1;
    }
    let calculated = calculate_points(stats, rule, &enabled_keys);
    let mut players: Vec<CreateMatchPlayerInput> = Vec::new();
    let mut teammate_ids: Vec<Option<i64>> = Vec::new();
    let mut k: usize = 0;
    while k < calculated.len()
        invariant
            k <= calculated@.len(),
            calculated@.len() == stats@.len(),
            keys@.len() == stats@.len(),
            teammates@.len() == stats@.len(),
            forall|q: int| 0 <= q < stats@.len() ==> (#[trigger] keys@[q])@ == stats_key(stats@[q]),
            forall|q: int|
                0 <= q < stats@.len() ==> {
                    let p = #[trigger] stats@[q];
                    let c = calculated@[q];
                    let spec = calculated_for(p, *rule, enabled_keys@);
                    &&& c.pubg_account_id == p.pubg_account_id
                    &&& c.pubg_player_name == p.pubg_player_name
                    &&& c.damage == p.damage
                    &&& c.kills == p.kills
                    &&& c.assists == p.assists
                    &&& c.revives == p.revives
                    &&& c.team_id == p.team_id
                    &&& c.placement == p.placement
                    &&& c.is_points_enabled == spec.0
                    &&& c.damage_points == spec.1
                    &&& c.kill_points == spec.2
                    &&& c.revive_points == spec.3
                    &&& c.total_points == spec.4
                },
            last_seen@ == last_seen_upto(stats@, teammates@, self_player_name@, stats@.len() as int),
            forall|key: Seq<char>|
                contains_text(enabled_keys@, key) <==> exists|j: int|
                    0 <= j < stats@.len() && points_enabled(stats@, teammates@, self_player_name@, j) && #[trigger] stats_key(stats@[j]) == key,
            text_of(self_account) == sa,
            sa == self_account_of(stats@, self_player_name@),
            players@.len() == k,
            teammate_ids@.len() == k,
            forall|q: int|
                0 <= q < k ==> {
                    let t = teammate_for(stats@, teammates@, stats_key(stats@[q]), stats@.len() as int);
                    &&& player_row_ok(#[trigger] players@[q], calculated@[q], match_id@, t, sa)
                    &&& teammate_ids@[q] == match t {
                        Some(tm) => Some(tm.id),
                        None => None,
                    }
                },
        decreases calculated.len() - k,
    {
        let c = &calculated[k];
        let teammate = find_teammate(stats, &keys, teammates, &keys[k]);
        assert(keys@[k as int]@ == stats_key(stats@[k as int]));
        let teammate_id = match &teammate {
            Some(t) => Some(t.id),
            None => None,
        };
        let display = match &teammate {
            Some(t) => match &t.display_nickname {
                Some(n) => Some(n.clone()),
                None => Some(c.pubg_player_name.clone()),
            },
            None => Some(c.pubg_player_name.clone()),
        };
        let is_self = match &self_account {
            Some(a) => str_eq(a.as_str(), c.pubg_account_id.as_str()),
            None => false,
        };
        let row = CreateMatchPlayerInput {
            match_id: match_id.to_string(),
            teammate_id,
            pubg_account_id: Some(c.pubg_account_id.clone()),
            pubg_player_name: c.pubg_player_name.clone(),
            display_nickname_snapshot: display,
            team_id: c.team_id,
            damage: c.damage,
            kills: c.kills,
            assists: c.assists,
            revives: c.revives,
            placement: c.placement,
            is_self,
            is_points_enabled_snapshot: c.is_points_enabled,
            points: c.total_points,
        };
        players.push(row);
        teammate_ids.push(teammate_id);
        k = k + 1;
    }
    PlayersPersistPlan { enabled_player_keys: enabled_keys, calculated_points: calculated, players, teammate_ids, last_seen_teammate_ids: last_seen }
}

/// The point record of a stored player.
pub fn point_record_input(match_id: &str, match_player_id: i64, teammate_id: Option<i64>, rule: &RuleConfig, points: i64) -> (res: CreatePointRecordInput)
    ensures
        res.match_id@ == match_id@,
        res.match_player_id == match_player_id,
        res.teammate_id == teammate_id,
        res.rule_id == rule.id,
        res.rule_name_snapshot@ == rule.name@,
        res.damage_points_per_damage_snapshot == rule.damage_points_per_damage,
        res.kill_points_snapshot == rule.kill_points,
        res.revive_points_snapshot == rule.revive_points,
        res.rounding_mode_snapshot@ == rule.rounding_mode@,
        res.points == points,
        res.note is None,
{
    CreatePointRecordInput {
        match_id: match_id.to_string(),
        match_player_id,
        teammate_id,
        rule_id: rule.id,
        rule_name_snapshot: rule.name.clone(),
        damage_points_per_damage_snapshot: rule.damage_points_per_damage,
        kill_points_snapshot: rule.kill_points,
        revive_points_snapshot: rule.revive_points,
        rounding_mode_snapshot: rule.rounding_mode.clone(),
        points,
        note: None,
    }
}

// ----- telemetry records -----------------------------------------------------------------

/// The name of the player with an account id: that of the last player with a non-blank
/// account id equal to it.
pub open spec fn name_for_account(stats: Seq<PlayerStats>, account_id: Seq<char>, n: int) -> Option<Seq<char>>
    decreases n,
{
    if n <= 0 {
        None
    } else if trim_seq(stats[n - 1].pubg_account_id@).len() > 0 && stats[n - 1].pubg_account_id@ == account_id {
        Some(stats[n - 1].pubg_player_name@)
    } else {
        name_for_account(stats, account_id, n - 1)
    }
}

fn find_name_for_account(stats: &Vec<PlayerStats>, account_id: &str) -> (res: Option<String>)
    ensures
        text_of(res) == name_for_account(stats@, account_id@, stats@.len() as int),
{
    let mut n: usize = stats.len();
    while n > 0
        invariant
            n <= stats@.len(),
            name_for_account(stats@, account_id@, stats@.len() as int) == name_for_account(stats@, account_id@, n as int),
        decreases n,
    {
        let p = &stats[n - 1];
        let t = trim(p.pubg_account_id.as_str());
        if !t.as_str().is_empty() && str_eq(p.pubg_account_id.as_str(), account_id) {
            return Some(p.pubg_player_name.clone());
        }
        n = n - 1;
    }
    None
}

pub open spec fn kill_row_ok(row: CreateMatchKillEventInput, e: TelemetryKillEvent, match_id: Seq<char>, stats: Seq<PlayerStats>) -> bool {
    &&& row.match_id@ == match_id
    &&& text_of(row.killer_account_id) == text_of(e.killer_account_id)
    &&& text_of(row.killer_name) == text_of(e.killer_name)
    &&& text_of(row.victim_account_id) == text_of(e.victim_account_id)
    &&& text_of(row.victim_name) == text_of(e.victim_name)
    &&& text_of(row.assistant_account_id) == text_of(e.assistant_account_id)
    &&& text_of(row.assistant_name) == match e.assistant_account_id {
        Some(a) => name_for_account(stats, a@, stats.len() as int),
        None => None,
    }
    &&& text_of(row.damage_type_category) == text_of(e.damage_type_category)
    &&& text_of(row.damage_causer_name) == text_of(e.damage_causer_name)
    &&& text_of(row.event_at) == text_of(e.event_at)
}

fn copy_opt(o: &Option<String>) -> (res: Option<String>)
    ensures
        text_of(res) == text_of(*o),
{
    match o {
        Some(s) => Some(s.clone()),
        None => None,
    }
}

/// The kill records of a match, each with the name of its assistant looked up among the
/// match's players.
pub fn kill_event_inputs(match_id: &str, kill_events: &Vec<TelemetryKillEvent>, player_stats: &Vec<PlayerStats>) -> (res: Vec<CreateMatchKillEventInput>)
    ensures
        res@.len() == kill_events@.len(),
        forall|i: int| 0 <= i < kill_events@.len() ==> kill_row_ok(#[trigger] res@[i], kill_events@[i], match_id@, player_stats@),
{
    let mut out: Vec<CreateMatchKillEventInput> = Vec::new();
    let mut i: usize = 0;
    while i < kill_events.len()
        invariant
            i <= kill_events@.len(),
            out@.len() == i,
            forall|q: int| 0 <= q < i ==> kill_row_ok(#[trigger] out@[q], kill_events@[q], match_id@, player_stats@),
        decreases kill_events.len() - i,
    {
        let e = &kill_events[i];
        let assistant_name = match &e.assistant_account_id {
            Some(a) => find_name_for_account(player_stats, a.as_str()),
            None => None,
        };
        out.push(
            CreateMatchKillEventInput {
                match_id: match_id.to_string(),
                killer_account_id: copy_opt(&e.killer_account_id),
                killer_name: copy_opt(&e.killer_name),
                victim_account_id: copy_opt(&e.victim_account_id),
                victim_name: copy_opt(&e.victim_name),
                assistant_account_id: copy_opt(&e.assistant_account_id),
                assistant_name,
                damage_type_category: copy_opt(&e.damage_type_category),
                damage_causer_name: copy_opt(&e.damage_causer_name),
                event_at: copy_opt(&e.event_at),
            },
        );
        i = i + 1;
    }
    out
}

/// Only the own team plays for points: the account's own player always counts, a player of
/// another team never does, and a player of the own team counts unless its teammate record
/// has points disabled.
pub proof fn law_only_own_team_counts(stats: Seq<PlayerStats>, teammates: Seq<Option<TeammateDto>>, self_name: Seq<char>, i: int)
    requires
        0 <= i < stats.len(),
        teammates.len() == stats.len(),
    ensures
        is_self_stats(stats[i], self_name) ==> points_enabled(stats, teammates, self_name, i),
        !is_self_stats(stats[i], self_name) && !same_team(stats[i], self_team_of(stats, self_name))
            ==> !points_enabled(stats, teammates, self_name, i),
        !is_self_stats(stats[i], self_name) && same_team(stats[i], self_team_of(stats, self_name))
            ==> (points_enabled(stats, teammates, self_name, i) <==> !(teammates[i] matches Some(t)
            && !t.is_points_enabled)),
{
}

} // verus!
