//! The PUBG API: its addresses, and what the library reads from its answers.
//!
//! The requests themselves are made by the application, which hands the decoded answers
//! back as the types below. Damage values are thousandths of a hit point.

use vstd::prelude::*;
use crate::error::{app_error, AppError};
use crate::parser::telemetry::{first_where, lemma_first_where};
use crate::text::{concat, str_eq, trim, trim_seq};
use vstd::utf8::encode_utf8;

verus! {

pub const PUBG_BASE_URL: &'static str = "https://api.pubg.com/shards";

/// A client of the PUBG API for one API key.
#[derive(Debug, Clone)]
pub struct PubgClient {
    api_key: String,
}

#[derive(Debug, Clone)]
pub struct PubgPlayer {
    pub id: String,
    pub attributes: PubgPlayerAttributes,
    pub relationships: Option<PubgPlayerRelationships>,
}

#[derive(Debug, Clone)]
pub struct PubgPlayerAttributes {
    pub name: String,
}

#[derive(Debug, Clone)]
pub struct PubgPlayerRelationships {
    pub matches: Option<PubgRelationshipList>,
}

#[derive(Debug, Clone)]
pub struct PubgRelationshipList {
    pub data: Vec<PubgResourceRef>,
}

#[derive(Debug, Clone)]
pub struct PubgResourceRef {
    pub id: String,
    pub resource_type: String,
}

#[derive(Debug, Clone)]
pub struct PubgMatch {
    pub id: String,
    pub attributes: PubgMatchAttributes,
    pub relationships: PubgMatchRelationships,
    pub included: Vec<PubgIncludedEntity>,
}

#[derive(Debug, Clone)]
pub struct PubgMatchAttributes {
    pub game_mode: Option<String>,
    pub map_name: Option<String>,
    pub created_at: String,
    pub duration: Option<i64>,
    pub match_type: Option<String>,
    pub is_custom_match: Option<bool>,
    pub shard_id: Option<String>,
}

#[derive(Debug, Clone)]
pub struct PubgMatchRelationships {
    pub assets: PubgRelationshipList,
    pub rosters: Option<PubgRelationshipList>,
}

/// An entity that a match answer includes, with what the library reads of its attributes.
#[derive(Debug, Clone)]
pub struct PubgIncludedEntity {
    pub id: String,
    pub entity_type: String,
    pub attributes: PubgEntityAttributes,
    pub relationships: Option<PubgIncludedRelationships>,
}

/// The attributes of an included entity: its `URL` when that is a string, its roster stats
/// and its participant stats when the attributes hold them.
#[derive(Debug, Clone)]
pub struct PubgEntityAttributes {
    pub url: Option<String>,
    pub roster_stats: Option<PubgRosterStats>,
    pub participant_stats: Option<PubgParticipantStats>,
}

#[derive(Debug, Clone)]
pub struct PubgIncludedRelationships {
    pub participants: Option<PubgRelationshipList>,
}

#[derive(Debug, Clone)]
pub struct PubgRosterStats {
    pub rank: Option<i64>,
    pub team_id: Option<i64>,
}

#[derive(Debug, Clone)]
pub struct PubgParticipantStats {
    pub player_id: Option<String>,
    pub name: Option<String>,
    /// Damage dealt, in thousandths.
    pub damage_dealt: Option<i64>,
    pub kills: Option<i64>,
    pub assists: Option<i64>,
    pub revives: Option<i64>,
}

#[derive(Debug, Clone)]
pub struct PubgMatchParticipantStats {
    pub pubg_account_id: String,
    pub pubg_player_name: String,
    pub team_id: Option<i64>,
    pub placement: Option<i64>,
    /// Damage dealt, in thousandths.
    pub damage: i64,
    pub kills: i64,
    pub assists: i64,
    pub revives: i64,
}

// ----- addresses -------------------------------------------------------------------------

/// The bytes that URL encoding leaves as they are: ASCII digits and letters, `-`, `.`, `_`
/// and `~`.
pub open spec fn unreserved_byte(b: u8) -> bool {
    (48 <= b && b <= 57) || (65 <= b && b <= 90) || (97 <= b && b <= 122) || b == 45 || b == 46 || b == 95 || b == 126
}

/// An upper-case hex digit.
pub open spec fn hex_digit(d: int) -> char {
    if d < 10 {
        (48 + d) as char
    } else {
        (55 + d) as char
    }
}

/// Percent-encoding of bytes: an unreserved byte stays as its character, every other one
/// becomes `%` and two upper-case hex digits.
pub open spec fn percent_encoded(bytes: Seq<u8>) -> Seq<char>
    decreases bytes.len(),
{
    if bytes.len() == 0 {
        Seq::empty()
    } else {
        let b = bytes.last();
        percent_encoded(bytes.drop_last()) + if unreserved_byte(b) {
            seq![b as char]
        } else {
            seq!['%', hex_digit((b as int) / 16), hex_digit((b as int) % 16)]
        }
    }
}

/// URL encoding of a text: the percent-encoding of its UTF-8 bytes.
pub open spec fn url_encoded(s: Seq<char>) -> Seq<char> {
    percent_encoded(encode_utf8(s))
}

/// `urlencoding::encode`: every byte of the UTF-8 text but ASCII alphanumerics and `-`, `_`,
/// `.`, `~` percent-encoded with upper-case hex digits (`url_encoded`).
#[verifier::external_body]
fn url_encode(s: &str) -> (res: String)
    ensures
        res@ == url_encoded(s@),
{
    urlencoding::encode(s).into_owned()
}

fn shard_url(platform: &str, path: &str, arg: &str) -> (res: String)
    ensures
        res@ == PUBG_BASE_URL@ + "/"@ + platform@ + path@ + url_encoded(arg@),
{
    let a = concat(PUBG_BASE_URL, "/");
    let b = concat(a.as_str(), platform);
    let c = concat(b.as_str(), path);
    let e = url_encode(arg);
    concat(c.as_str(), e.as_str())
}

/// The address that looks a player up by name.
pub fn players_by_name_url(player_name: &str, platform: &str) -> (res: String)
    ensures
        res@ == PUBG_BASE_URL@ + "/"@ + platform@ + "/players?filter[playerNames]="@ + url_encoded(player_name@),
{
    shard_url(platform, "/players?filter[playerNames]=", player_name)
}

/// The address of a player by id.
pub fn player_by_id_url(player_id: &str, platform: &str) -> (res: String)
    ensures
        res@ == PUBG_BASE_URL@ + "/"@ + platform@ + "/players/"@ + url_encoded(player_id@),
{
    shard_url(platform, "/players/", player_id)
}

/// The address of a match.
pub fn match_url(match_id: &str, platform: &str) -> (res: String)
    ensures
        res@ == PUBG_BASE_URL@ + "/"@ + platform@ + "/matches/"@ + url_encoded(match_id@),
{
    shard_url(platform, "/matches/", match_id)
}

// ----- recent matches --------------------------------------------------------------------

/// The ids of the first `limit` references of type "match".
pub open spec fn match_ids_upto(refs: Seq<PubgResourceRef>, limit: int, n: int) -> Seq<Seq<char>>
    decreases n,
{
    if n <= 0 {
        Seq::empty()
    } else {
        let prev = match_ids_upto(refs, limit, n - 1);
        if refs[n - 1].resource_type@ == "match"@ && prev.len() < limit {
            prev.push(refs[n - 1].id@)
        } else {
            prev
        }
    }
}

pub open spec fn texts(v: Seq<String>) -> Seq<Seq<char>> {
    v.map_values(|s: String| s@)
}

pub open spec fn recent_ids_spec(r: PubgPlayerRelationships, limit: usize) -> Seq<Seq<char>> {
    match r.matches {
        Some(m) => match_ids_upto(m.data@, limit as int, m.data@.len() as int),
        None => Seq::empty(),
    }
}

fn match_ids_of(refs: &Vec<PubgResourceRef>, limit: usize) -> (res: Vec<String>)
    ensures
        texts(res@) == match_ids_upto(refs@, limit as int, refs@.len() as int),
{
    let mut out: Vec<String> = Vec::new();
    let mut i: usize = 0;
    while i < refs.len()
        invariant
            i <= refs@.len(),
            texts(out@) == match_ids_upto(refs@, limit as int, i as int),
            out@.len() <= limit,
        decreases refs.len() - i,
    {
        let r = &refs[i];
        if str_eq(r.resource_type.as_str(), "match") && out.len() < limit {
            let ghost before = out@;
            out.push(r.id.clone());
            proof {
                assert(texts(out@) =~= texts(before).push(r.id@));
            }
        }
        i = i + 1;
    }
    out
}

impl PubgPlayerRelationships {
    /// The ids of the player's first `limit` matches.
    pub fn recent_match_ids(&self, limit: usize) -> (res: Vec<String>)
        ensures
            texts(res@) == recent_ids_spec(*self, limit),
    {
        match &self.matches {
            Some(m) => match_ids_of(&m.data, limit),
            None => Vec::new(),
        }
    }
}

impl PubgClient {
    pub fn new(api_key: String) -> (res: Self)
        ensures
            res.api_key() == api_key@,
    {
        PubgClient { api_key }
    }

    pub closed spec fn api_key(&self) -> Seq<char> {
        self.api_key@
    }

    /// The value of the `Authorization` header of the client's requests.
    pub fn bearer_token(&self) -> (res: String)
        ensures
            res@ == "Bearer "@ + self.api_key(),
    {
        concat("Bearer ", self.api_key.as_str())
    }

    /// The first `limit` match ids of a player that was looked up by id; a player that the
    /// API did not return is an error.
    pub fn get_recent_matches(&self, player: Option<PubgPlayer>, limit: usize) -> (res: Result<Vec<String>, AppError>)
        ensures
            player is None <==> res is Err,
            res matches Err(AppError::Message(m)) ==> m@ == "player not found"@,
            player matches Some(p) ==> (res matches Ok(ids) && texts(ids@) == match p.relationships {
                Some(r) => recent_ids_spec(r, limit),
                None => Seq::empty(),
            }),
    {
        let player = match player {
            Some(p) => p,
            None => {
                return Err(app_error("player not found"));
            },
        };
        match &player.relationships {
            Some(r) => Ok(r.recent_match_ids(limit)),
            None => Ok(Vec::new()),
        }
    }

    /// The first `limit` match ids of the first player that a lookup by name returned; none
    /// when it returned nobody.
    pub fn get_recent_matches_for_player_name(&self, players: &Vec<PubgPlayer>, limit: usize) -> (res: Result<Vec<String>, AppError>)
        ensures
            res matches Ok(ids) && texts(ids@) == if players@.len() == 0 {
                Seq::empty()
            } else {
                match players@[0].relationships {
                    Some(r) => recent_ids_spec(r, limit),
                    None => Seq::empty(),
                }
            },
    {
        if players.len() == 0 {
            return Ok(Vec::new());
        }
        match &players[0].relationships {
            Some(r) => Ok(r.recent_match_ids(limit)),
            None => Ok(Vec::new()),
        }
    }

    /// The telemetry address of a match: the `URL` of the first included asset whose id is
    /// that of the match's first asset and which has one.
    pub fn get_telemetry_url(&self, match_data: &PubgMatch) -> (res: Option<String>)
        ensures
            text_opt(res) == telemetry_url_spec(*match_data),
    {
        if match_data.relationships.assets.data.len() == 0 {
            return None;
        }
        let asset_id = &match_data.relationships.assets.data[0].id;
        let ghost p = is_telemetry_asset(asset_id@);
        let inc = &match_data.included;
        let mut k: usize = 0;
        while k < inc.len()
            invariant
                k <= inc@.len(),
                *inc == match_data.included,
                match_data.relationships.assets.data@.len() > 0,
                *asset_id == match_data.relationships.assets.data@[0].id,
                p == is_telemetry_asset(asset_id@),
                forall|j: int| 0 <= j < k ==> !p(#[trigger] inc@[j]),
            decreases inc.len() - k,
        {
            let e = &inc[k];
            if str_eq(e.entity_type.as_str(), "asset") && str_eq(e.id.as_str(), asset_id.as_str()) && e.attributes.url.is_some() {
                proof {
                    lemma_first_where(inc@, p, k as int);
                }
                return match &e.attributes.url {
                    Some(u) => Some(u.clone()),
                    None => None,
                };
            }
            k = k + 1;
        }
        proof {
            lemma_first_where(inc@, p, k as int);
        }
        None
    }

    /// The players of a match with their team and placement (from the last roster that lists
    /// them); participants without stats or without a player id are left out (see
    /// `participants_upto`).
    pub fn extract_match_participants(&self, match_data: &PubgMatch) -> (res: Vec<PubgMatchParticipantStats>)
        ensures
            res@.map_values(|p: PubgMatchParticipantStats| participant_view(p))
                == participants_upto(match_data.included@, match_data.included@.len() as int),
    {
        let inc = &match_data.included;
        let mut out: Vec<PubgMatchParticipantStats> = Vec::new();
        let mut i: usize = 0;
        while i < inc.len()
            invariant
                i <= inc@.len(),
                *inc == match_data.included,
                out@.map_values(|p: PubgMatchParticipantStats| participant_view(p)) == participants_upto(inc@, i as int),
            decreases inc.len() - i,
        {
            let e = &inc[i];
            if str_eq(e.entity_type.as_str(), "participant") {
                match &e.attributes.participant_stats {
                    Some(stats) => {
                        match &stats.player_id {
                            Some(raw_id) => {
                                let player_id = trim(raw_id.as_str());
                                if !player_id.as_str().is_empty() {
                                    let player_name = match &stats.name {
                                        Some(n) => {
                                            let t = trim(n.as_str());
                                            if t.as_str().is_empty() {
                                                player_id.clone()
                                            } else {
                                                t
                                            }
                                        },
                                        None => player_id.clone(),
                                    };
                                    let (team_id, placement) = roster_of(inc, &e.id);
                                    let p = PubgMatchParticipantStats {
                                        pubg_account_id: player_id,
                                        pubg_player_name: player_name,
                                        team_id,
                                        placement,
                                        damage: unwrap_or_zero(stats.damage_dealt),
                                        kills: unwrap_or_zero(stats.kills),
                                        assists: unwrap_or_zero(stats.assists),
                                        revives: unwrap_or_zero(stats.revives),
                                    };
                                    let ghost before = out@;
                                    let ghost pv = participant_view(p);
                                    out.push(p);
                                    proof {
                                        assert(out@.map_values(|p: PubgMatchParticipantStats| participant_view(p))
                                            =~= before.map_values(|p: PubgMatchParticipantStats| participant_view(p)).push(pv));
                                    }
                                }
                            },
                            None => {},
                        }
                    },
                    None => {},
                }
            }
            i = i + 1;
        }
        out
    }
}

pub open spec fn text_opt(o: Option<String>) -> Option<Seq<char>> {
    match o {
        Some(s) => Some(s@),
        None => None,
    }
}

pub open spec fn is_telemetry_asset(asset_id: Seq<char>) -> spec_fn(PubgIncludedEntity) -> bool {
    |e: PubgIncludedEntity| e.entity_type@ == "asset"@ && e.id@ == asset_id && e.attributes.url is Some
}

pub open spec fn telemetry_url_spec(m: PubgMatch) -> Option<Seq<char>> {
    if m.relationships.assets.data@.len() == 0 {
        None
    } else {
        let k = first_where(m.included@, is_telemetry_asset(m.relationships.assets.data@[0].id@));
        if k < 0 {
            None
        } else {
            text_opt(m.included@[k].attributes.url)
        }
    }
}

pub open spec fn list_has(l: PubgRelationshipList, id: Seq<char>) -> bool {
    exists|j: int| 0 <= j < l.data@.len() && (#[trigger] l.data@[j]).id@ == id
}

pub open spec fn lists_participant(e: PubgIncludedEntity, participant_id: Seq<char>) -> bool {
    e.entity_type@ == "roster"@ && match e.relationships {
        Some(r) => match r.participants {
            Some(l) => list_has(l, participant_id),
            None => false,
        },
        None => false,
    }
}

/// The (team, placement) of the last of the first `n` rosters that lists the participant.
pub open spec fn roster_upto(inc: Seq<PubgIncludedEntity>, participant_id: Seq<char>, n: int) -> (Option<i64>, Option<i64>)
    decreases n,
{
    if n <= 0 {
        (None, None)
    } else if lists_participant(inc[n - 1], participant_id) {
        match inc[n - 1].attributes.roster_stats {
            Some(s) => (s.team_id, s.rank),
            None => (None, None),
        }
    } else {
        roster_upto(inc, participant_id, n - 1)
    }
}

pub open spec fn unwrap_or_zero_spec(o: Option<i64>) -> i64 {
    match o {
        Some(v) => v,
        None => 0,
    }
}

/// A participant as plain values.
pub struct ParticipantV {
    pub account_id: Seq<char>,
    pub name: Seq<char>,
    pub team_id: Option<i64>,
    pub placement: Option<i64>,
    pub damage: i64,
    pub kills: i64,
    pub assists: i64,
    pub revives: i64,
}

pub open spec fn participant_view(p: PubgMatchParticipantStats) -> ParticipantV {
    ParticipantV {
        account_id: p.pubg_account_id@,
        name: p.pubg_player_name@,
        team_id: p.team_id,
        placement: p.placement,
        damage: p.damage,
        kills: p.kills,
        assists: p.assists,
        revives: p.revives,
    }
}

/// The participant that an included entity describes, if it is one with a (trimmed,
/// non-blank) player id; a blank name falls back to the id.
pub open spec fn participant_of(inc: Seq<PubgIncludedEntity>, e: PubgIncludedEntity) -> Option<ParticipantV> {
    if e.entity_type@ != "participant"@ {
        None
    } else {
        match e.attributes.participant_stats {
            None => None,
            Some(stats) => match stats.player_id {
                None => None,
                Some(raw_id) => {
                    let id = trim_seq(raw_id@);
                    if id.len() == 0 {
                        None
                    } else {
                        let name = match stats.name {
                            Some(n) => if trim_seq(n@).len() == 0 {
                                id
                            } else {
                                trim_seq(n@)
                            },
                            None => id,
                        };
                        let roster = roster_upto(inc, e.id@, inc.len() as int);
                        Some(
                            ParticipantV {
                                account_id: id,
                                name,
                                team_id: roster.0,
                                placement: roster.1,
                                damage: unwrap_or_zero_spec(stats.damage_dealt),
                                kills: unwrap_or_zero_spec(stats.kills),
                                assists: unwrap_or_zero_spec(stats.assists),
                                revives: unwrap_or_zero_spec(stats.revives),
                            },
                        )
                    }
                }
            },
        }
    }
}

/// The participants among the first `n` included entities, in order.
pub open spec fn participants_upto(inc: Seq<PubgIncludedEntity>, n: int) -> Seq<ParticipantV>
    decreases n,
{
    if n <= 0 {
        Seq::empty()
    } else {
        let prev = participants_upto(inc, n - 1);
        match participant_of(inc, inc[n - 1]) {
            Some(v) => prev.push(v),
            None => prev,
        }
    }
}

fn unwrap_or_zero(o: Option<i64>) -> (res: i64)
    ensures
        res == unwrap_or_zero_spec(o),
{
    match o {
        Some(v) => v,
        None => 0,
    }
}

fn list_has_id(l: &PubgRelationshipList, id: &String) -> (res: bool)
    ensures
        res == list_has(*l, id@),
{
    let mut j: usize = 0;
    while j < l.data.len()
        invariant
            j <= l.data@.len(),
            forall|q: int| 0 <= q < j ==> (#[trigger] l.data@[q]).id@ != id@,
        decreases l.data.len() - j,
    {
        if str_eq(l.data[j].id.as_str(), id.as_str()) {
            assert(l.data@[j as int].id@ == id@);
            return true;
        }
        j = j + 1;
    }
    false
}

fn roster_lists(e: &PubgIncludedEntity, participant_id: &String) -> (res: bool)
    ensures
        res == lists_participant(*e, participant_id@),
{
    if !str_eq(e.entity_type.as_str(), "roster") {
        return false;
    }
    match &e.relationships {
        Some(r) => match &r.participants {
            Some(l) => list_has_id(l, participant_id),
            None => false,
        },
        None => false,
    }
}

fn roster_of(inc: &Vec<PubgIncludedEntity>, participant_id: &String) -> (res: (Option<i64>, Option<i64>))
    ensures
        res == roster_upto(inc@, participant_id@, inc@.len() as int),
{
    let mut n: usize = inc.len();
    while n > 0
        invariant
            n <= inc@.len(),
            roster_upto(inc@, participant_id@, inc@.len() as int) == roster_upto(inc@, participant_id@, n as int),
        decreases n,
    {
        let e = &inc[n - 1];
        if roster_lists(e, participant_id) {
            return match &e.attributes.roster_stats {
                Some(st) => (st.team_id, st.rank),
                None => (None, None),
            };
        }
        n = n - 1;
    }
    (None, None)
}

} // verus!
