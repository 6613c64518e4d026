//! The state of match synchronisation and the decisions around it.
//!
//! The status values live behind locks in the application; the functions here take them as
//! plain values (a poisoned lock is passed as `None`) and return or change them.

use vstd::prelude::*;
use crate::engine::calculator::{identity_key_spec, player_identity_key, CalculatedPoints, PlayerStats};
use crate::parser::telemetry::{player_stats_view, round_damage, round_damage_spec, PlayerStatsV};
use crate::pubg::client::PubgMatchParticipantStats;
use crate::sort::{key_view, lemma_map_multiset, lemma_stable_order_views, sort_by_keys, sorted_by, stable_order, KeyPart, KeyV};
use crate::error::{app_error, AppError};
use crate::repository::matches::{MatchDto, MatchPlayerDto};
use crate::services::logs::LogLevel;
use crate::text::{ascii_lower_seq, concat, nat_digits, str_eq, to_ascii_lowercase, trim, trim_seq, u64_to_string};

verus! {

#[derive(Debug, Clone)]
pub struct SyncRuntimeStatus {
    pub is_syncing: bool,
    pub current_match_id: Option<String>,
    pub last_error: Option<String>,
}

impl Default for SyncRuntimeStatus {
    fn default() -> (res: Self)
        ensures
            !res.is_syncing,
            res.current_match_id is None,
            res.last_error is None,
    {
        SyncRuntimeStatus { is_syncing: false, current_match_id: None, last_error: None }
    }
}

#[derive(Debug, Clone, Copy, PartialEq, Eq, Structural)]
pub enum ManualSyncTaskState {
    Idle,
    Syncing,
    Success,
    Failed,
}

#[derive(Debug, Clone)]
pub struct ManualSyncTaskStatus {
    pub state: ManualSyncTaskState,
    pub started_at: Option<String>,
    pub finished_at: Option<String>,
    pub error_message: Option<String>,
}

impl Default for ManualSyncTaskStatus {
    fn default() -> (res: Self)
        ensures
            res.state == ManualSyncTaskState::Idle,
            res.started_at is None,
            res.finished_at is None,
            res.error_message is None,
    {
        ManualSyncTaskStatus { state: ManualSyncTaskState::Idle, started_at: None, finished_at: None, error_message: None }
    }
}

#[derive(Debug, Clone)]
pub struct SyncResult {
    pub success: bool,
    pub match_data: Option<MatchDto>,
    pub players: Option<Vec<MatchPlayerDto>>,
    pub points: Option<Vec<CalculatedPoints>>,
    pub error: Option<String>,
}

pub open spec fn text_of(o: Option<String>) -> Option<Seq<char>> {
    match o {
        Some(s) => Some(s@),
        None => None,
    }
}

/// A result that failed with the given message.
pub open spec fn is_failure(r: SyncResult, message: Seq<char>) -> bool {
    &&& !r.success
    &&& r.match_data is None
    &&& r.players is None
    &&& r.points is None
    &&& text_of(r.error) == Some(message)
}

impl SyncResult {
    /// A failed result with the given message.
    pub fn failed(message: String) -> (res: SyncResult)
        ensures
            is_failure(res, message@),
    {
        SyncResult { success: false, match_data: None, players: None, points: None, error: Some(message) }
    }

    /// A successful result that carries nothing.
    pub fn empty_success() -> (res: SyncResult)
        ensures
            res.success,
            res.match_data is None,
            res.players is None,
            res.points is None,
            res.error is None,
    {
        SyncResult { success: true, match_data: None, players: None, points: None, error: None }
    }
}

fn copy_text(o: &Option<String>) -> (res: Option<String>)
    ensures
        text_of(res) == text_of(*o),
{
    match o {
        Some(s) => Some(s.clone()),
        None => None,
    }
}

/// The current synchronisation status; a poisoned lock reads as the default status.
pub fn read_status(locked: Option<&SyncRuntimeStatus>) -> (res: SyncRuntimeStatus)
    ensures
        match locked {
            Some(s) => res.is_syncing == s.is_syncing && text_of(res.current_match_id) == text_of(s.current_match_id)
                && text_of(res.last_error) == text_of(s.last_error),
            None => !res.is_syncing && res.current_match_id is None && res.last_error is None,
        },
{
    match locked {
        Some(s) => SyncRuntimeStatus {
            is_syncing: s.is_syncing,
            current_match_id: copy_text(&s.current_match_id),
            last_error: copy_text(&s.last_error),
        },
        None => SyncRuntimeStatus::default(),
    }
}

pub const MANUAL_STATUS_POISONED: &'static str = "manual sync task status mutex is poisoned";

/// The status of the manual synchronisation task; a poisoned lock is an error.
pub fn read_manual_task_status(locked: Option<&ManualSyncTaskStatus>) -> (res: Result<ManualSyncTaskStatus, AppError>)
    ensures
        match locked {
            Some(s) => res matches Ok(r) && r.state == s.state && text_of(r.started_at) == text_of(s.started_at)
                && text_of(r.finished_at) == text_of(s.finished_at) && text_of(r.error_message) == text_of(s.error_message),
            None => res matches Err(AppError::Message(m)) && m@ == MANUAL_STATUS_POISONED@,
        },
{
    match locked {
        Some(s) => Ok(
            ManualSyncTaskStatus {
                state: s.state,
                started_at: copy_text(&s.started_at),
                finished_at: copy_text(&s.finished_at),
                error_message: copy_text(&s.error_message),
            },
        ),
        None => Err(app_error(MANUAL_STATUS_POISONED)),
    }
}

/// The answer when a synchronisation is asked for while `current` runs.
pub open spec fn busy_message(current: Option<Seq<char>>) -> Seq<char> {
    match current {
        Some(c) => "Another sync is already running for "@ + c + "."@,
        None => "Another sync is already running."@,
    }
}

/// What starting a synchronisation of `match_id` does: when one runs, the status stays and
/// the answer is a failure naming the running one; else the status runs `match_id` with no
/// error and there is no answer yet.
pub open spec fn begin_sync_post(before: SyncRuntimeStatus, match_id: Seq<char>, after: SyncRuntimeStatus, res: Option<SyncResult>) -> bool {
    if before.is_syncing {
        &&& after.is_syncing
        &&& text_of(after.current_match_id) == text_of(before.current_match_id)
        &&& text_of(after.last_error) == text_of(before.last_error)
        &&& res matches Some(r) && is_failure(r, busy_message(text_of(before.current_match_id)))
    } else {
        &&& res is None
        &&& after.is_syncing
        &&& text_of(after.current_match_id) == Some(match_id)
        &&& after.last_error is None
    }
}

/// What ending a synchronisation does: nothing runs, and the error is recorded.
pub open spec fn end_sync_post(after: SyncRuntimeStatus, error: Option<String>) -> bool {
    &&& !after.is_syncing
    &&& after.current_match_id is None
    &&& text_of(after.last_error) == text_of(error)
}

/// Starts a synchronisation of `match_id` unless one is running. When one is, the status
/// stays as it was and the answer is a failure naming the running one.
pub fn begin_sync(status: &mut SyncRuntimeStatus, match_id: &str) -> (res: Option<SyncResult>)
    ensures
        begin_sync_post(*old(status), match_id@, *final(status), res),
{
    if status.is_syncing {
        let message = match &status.current_match_id {
            Some(current) => {
                let head = concat("Another sync is already running for ", current.as_str());
                concat(head.as_str(), ".")
            },
            None => "Another sync is already running.".to_string(),
        };
        return Some(SyncResult::failed(message));
    }
    status.is_syncing = true;
    status.current_match_id = Some(match_id.to_string());
    status.last_error = None;
    None
}

/// Ends the running synchronisation with its error, if any.
pub fn end_sync(status: &mut SyncRuntimeStatus, error: Option<String>)
    ensures
        end_sync_post(*final(status), error),
{
    status.is_syncing = false;
    status.current_match_id = None;
    status.last_error = error;
}

/// Records an error and leaves the rest of the status as it was.
pub fn set_runtime_error(status: &mut SyncRuntimeStatus, error: Option<String>)
    ensures
        final(status).is_syncing == old(status).is_syncing,
        text_of(final(status).current_match_id) == text_of(old(status).current_match_id),
        text_of(final(status).last_error) == text_of(error),
{
    status.last_error = error;
}

/// Only one synchronisation runs at a time: once one has started, asking for another (of
/// any match) is answered with a failure that names the running one, and the running one
/// goes on.
pub proof fn law_one_sync_at_a_time(
    s0: SyncRuntimeStatus,
    first: Seq<char>,
    s1: SyncRuntimeStatus,
    r1: Option<SyncResult>,
    second: Seq<char>,
    s2: SyncRuntimeStatus,
    r2: Option<SyncResult>,
)
    requires
        !s0.is_syncing,
        begin_sync_post(s0, first, s1, r1),
        begin_sync_post(s1, second, s2, r2),
    ensures
        r1 is None,
        r2 matches Some(r) && is_failure(r, "Another sync is already running for "@ + first + "."@),
        s2.is_syncing,
        text_of(s2.current_match_id) == Some(first),
{
}

/// Ending a synchronisation frees the way: the next one starts.
pub proof fn law_end_frees_sync(
    s1: SyncRuntimeStatus,
    error: Option<String>,
    next: Seq<char>,
    s2: SyncRuntimeStatus,
    r2: Option<SyncResult>,
)
    requires
        end_sync_post(s1, error),
        begin_sync_post(s1, next, s2, r2),
    ensures
        r2 is None,
        s2.is_syncing,
        text_of(s2.current_match_id) == Some(next),
{
}

/// Marks the manual task as running since `now`.
pub fn set_manual_task_syncing(status: &mut ManualSyncTaskStatus, now: String)
    ensures
        final(status).state == ManualSyncTaskState::Syncing,
        text_of(final(status).started_at) == Some(now@),
        final(status).finished_at is None,
        final(status).error_message is None,
{
    status.state = ManualSyncTaskState::Syncing;
    status.started_at = Some(now);
    status.finished_at = None;
    status.error_message = None;
}

/// Marks the manual task as finished at `now` in the given state.
pub fn finish_manual_task(status: &mut ManualSyncTaskStatus, state: ManualSyncTaskState, now: String, error_message: Option<String>)
    ensures
        final(status).state == state,
        text_of(final(status).started_at) == text_of(old(status).started_at),
        text_of(final(status).finished_at) == Some(now@),
        text_of(final(status).error_message) == text_of(error_message),
{
    status.state = state;
    status.finished_at = Some(now);
    status.error_message = error_message;
}

/// Closes a manual synchronisation job with what it gave: an error becomes a failed result;
/// the task ends in `Success` or `Failed` with the result's error.
///
/// This is the second half of a manual job. The caller first marks the task as running with
/// `set_manual_task_syncing` (which sets its start time), then runs the batch, then calls
/// this; the start time set there is kept here.
pub fn run_manual_sync_job(status: &mut ManualSyncTaskStatus, finished_at: String, outcome: Result<SyncResult, AppError>) -> (res: SyncResult)
    ensures
        match outcome {
            Ok(r) => res == r,
            Err(AppError::Message(m)) => is_failure(res, m@),
        },
        final(status).state == if res.success {
            ManualSyncTaskState::Success
        } else {
            ManualSyncTaskState::Failed
        },
        text_of(final(status).started_at) == text_of(old(status).started_at),
        text_of(final(status).finished_at) == Some(finished_at@),
        text_of(final(status).error_message) == if res.success {
            None
        } else {
            text_of(res.error)
        },
{
    let result = match outcome {
        Ok(r) => r,
        Err(e) => SyncResult::failed(e.message()),
    };
    if result.success {
        finish_manual_task(status, ManualSyncTaskState::Success, finished_at, None);
    } else {
        let error = copy_text(&result.error);
        finish_manual_task(status, ManualSyncTaskState::Failed, finished_at, error);
    }
    result
}

pub const MISSING_API_KEY: &'static str = "Please configure PUBG API key before starting sync.";

pub const MISSING_PLAYER_NAME: &'static str = "Please configure your PUBG player name before syncing.";

/// The trimmed API key; a blank one is an error.
pub fn require_api_key(api_key: &str) -> (res: Result<String, AppError>)
    ensures
        trim_seq(api_key@).len() == 0 ==> (res matches Err(AppError::Message(m)) && m@ == MISSING_API_KEY@),
        trim_seq(api_key@).len() > 0 ==> (res matches Ok(k) && k@ == trim_seq(api_key@)),
{
    let trimmed = trim(api_key);
    if trimmed.as_str().is_empty() {
        Err(app_error(MISSING_API_KEY))
    } else {
        Ok(trimmed)
    }
}

/// The trimmed player name; a blank one is an error.
pub fn require_player_name(player_name: &str) -> (res: Result<String, AppError>)
    ensures
        trim_seq(player_name@).len() == 0 ==> (res matches Err(AppError::Message(m)) && m@ == MISSING_PLAYER_NAME@),
        trim_seq(player_name@).len() > 0 ==> (res matches Ok(k) && k@ == trim_seq(player_name@)),
{
    let trimmed = trim(player_name);
    if trimmed.as_str().is_empty() {
        Err(app_error(MISSING_PLAYER_NAME))
    } else {
        Ok(trimmed)
    }
}

/// The platforms the PUBG API serves.
pub open spec fn known_platform(p: Seq<char>) -> bool {
    p == "steam"@ || p == "xbox"@ || p == "psn"@ || p == "kakao"@
}

/// The platform, trimmed and lower-cased when it is a known one, else "steam".
pub open spec fn normalized_platform(value: Seq<char>) -> Seq<char> {
    let p = ascii_lower_seq(trim_seq(value));
    if known_platform(p) {
        p
    } else {
        "steam"@
    }
}

pub fn normalize_platform(value: String) -> (res: String)
    ensures
        res@ == normalized_platform(value@),
{
    let trimmed = trim(value.as_str());
    let lower = to_ascii_lowercase(trimmed.as_str());
    let s = lower.as_str();
    if str_eq(s, "steam") || str_eq(s, "xbox") || str_eq(s, "psn") || str_eq(s, "kakao") {
        lower
    } else {
        "steam".to_string()
    }
}

/// Whether a match has to be fetched again: it is not stored, not ready, lacks its start or
/// end time, has no point records or no telemetry details.
pub fn match_needs_refresh(match_data: Option<&MatchDto>, has_points: bool, has_detail_payload: bool) -> (res: bool)
    ensures
        res == match match_data {
            None => true,
            Some(m) => m.status@ != "ready"@ || m.match_start_at is None || m.match_end_at is None || !has_points
                || !has_detail_payload,
        },
{
    match match_data {
        None => true,
        Some(m) => {
            if !str_eq(m.status.as_str(), "ready") {
                return true;
            }
            if m.match_start_at.is_none() || m.match_end_at.is_none() {
                return true;
            }
            !has_points || !has_detail_payload
        },
    }
}

// ----- merging the API's player stats with the telemetry's -------------------------------

pub open spec fn part_key(p: PubgMatchParticipantStats) -> Seq<char> {
    identity_key_spec(p.pubg_account_id@, p.pubg_player_name@)
}

pub open spec fn tel_key(p: PlayerStats) -> Seq<char> {
    identity_key_spec(p.pubg_account_id@, p.pubg_player_name@)
}

/// The index of the last of the first `n` telemetry entries with the key, or -1.
pub open spec fn last_tel(tel: Seq<PlayerStats>, key: Seq<char>, n: int) -> int
    decreases n,
{
    if n <= 0 {
        -1
    } else if tel_key(tel[n - 1]) == key {
        n - 1
    } else {
        last_tel(tel, key, n - 1)
    }
}

/// Whether one of the first `i` participants has the key.
pub open spec fn key_taken(parts: Seq<PubgMatchParticipantStats>, i: int, key: Seq<char>) -> bool {
    exists|j: int| 0 <= j < i && #[trigger] part_key(parts[j]) == key
}

/// A participant merged with the telemetry entry of its key (the last one; only the first
/// participant with a key gets it): the API's figures, damage rounded to a tenth, team and
/// placement from the telemetry when the API has none.
pub open spec fn merged_participant(parts: Seq<PubgMatchParticipantStats>, tel: Seq<PlayerStats>, i: int) -> PlayerStatsV {
    let p = parts[i];
    let key = part_key(p);
    let t = if key_taken(parts, i, key) {
        -1
    } else {
        last_tel(tel, key, tel.len() as int)
    };
    PlayerStatsV {
        pubg_account_id: p.pubg_account_id@,
        pubg_player_name: p.pubg_player_name@,
        damage: round_damage_spec(p.damage),
        kills: p.kills,
        assists: p.assists,
        revives: p.revives,
        team_id: if p.team_id is Some {
            p.team_id
        } else if t >= 0 {
            tel[t].team_id
        } else {
            None
        },
        placement: if p.placement is Some {
            p.placement
        } else if t >= 0 {
            tel[t].placement
        } else {
            None
        },
    }
}

/// The telemetry players that no participant matches (the last entry of each key), without
/// assists and with damage rounded to a tenth.
pub open spec fn telemetry_only(parts: Seq<PubgMatchParticipantStats>, tel: Seq<PlayerStats>, n: int) -> Seq<PlayerStatsV>
    decreases n,
{
    if n <= 0 {
        Seq::empty()
    } else {
        let prev = telemetry_only(parts, tel, n - 1);
        let t = tel[n - 1];
        let key = tel_key(t);
        if last_tel(tel, key, tel.len() as int) == n - 1 && !key_taken(parts, parts.len() as int, key) {
            let v = player_stats_view(t);
            prev.push(PlayerStatsV { assists: 0, damage: round_damage_spec(t.damage), ..v })
        } else {
            prev
        }
    }
}

pub open spec fn merged_stats(parts: Seq<PubgMatchParticipantStats>, tel: Seq<PlayerStats>) -> Seq<PlayerStatsV> {
    Seq::new(parts.len(), |i: int| merged_participant(parts, tel, i)) + telemetry_only(parts, tel, tel.len() as int)
}

/// The API's figures are kept: the merged entry of every participant (the first of the merged
/// list's entries, in participant order) has the participant's account id, name, kills,
/// assists and revives unchanged and its damage rounded to a tenth; the telemetry only fills
/// a team or placement the API left out.
pub proof fn law_merge_keeps_api_figures(parts: Seq<PubgMatchParticipantStats>, tel: Seq<PlayerStats>, i: int)
    requires
        0 <= i < parts.len(),
    ensures
        merged_stats(parts, tel).len() >= parts.len(),
        merged_stats(parts, tel)[i].pubg_account_id == parts[i].pubg_account_id@,
        merged_stats(parts, tel)[i].pubg_player_name == parts[i].pubg_player_name@,
        merged_stats(parts, tel)[i].kills == parts[i].kills,
        merged_stats(parts, tel)[i].assists == parts[i].assists,
        merged_stats(parts, tel)[i].revives == parts[i].revives,
        merged_stats(parts, tel)[i].damage == round_damage_spec(parts[i].damage),
        parts[i].team_id is Some ==> merged_stats(parts, tel)[i].team_id == parts[i].team_id,
        parts[i].placement is Some ==> merged_stats(parts, tel)[i].placement == parts[i].placement,
{
    let m = merged_stats(parts, tel);
    assert(m[i] == merged_participant(parts, tel, i));
}

proof fn lemma_telemetry_only_no_assists(parts: Seq<PubgMatchParticipantStats>, tel: Seq<PlayerStats>, n: int)
    ensures
        forall|j: int| 0 <= j < telemetry_only(parts, tel, n).len() ==> (#[trigger] telemetry_only(parts, tel, n)[j]).assists == 0,
    decreases n,
{
    if n > 0 {
        lemma_telemetry_only_no_assists(parts, tel, n - 1);
    }
}

/// Players that only the telemetry knows are added after the participants, with no assists
/// (the telemetry's assists are not the API's).
pub proof fn law_telemetry_only_players_have_no_assists(parts: Seq<PubgMatchParticipantStats>, tel: Seq<PlayerStats>, j: int)
    requires
        parts.len() <= j < merged_stats(parts, tel).len(),
    ensures
        merged_stats(parts, tel)[j].assists == 0,
{
    lemma_telemetry_only_no_assists(parts, tel, tel.len() as int);
    let t = telemetry_only(parts, tel, tel.len() as int);
    assert(merged_stats(parts, tel)[j] == t[j - parts.len()]);
}

/// Most kills first, then most assists, then most damage, then by name.
pub open spec fn merge_order(p: PlayerStats) -> Seq<KeyV> {
    seq![KeyV::Int(-p.kills), KeyV::Int(-p.assists), KeyV::Int(-p.damage), KeyV::Text(p.pubg_player_name@)]
}

/// `merge_order` read on a player's view.
pub open spec fn merge_order_v(p: PlayerStatsV) -> Seq<KeyV> {
    seq![KeyV::Int(-p.kills), KeyV::Int(-p.assists), KeyV::Int(-p.damage), KeyV::Text(p.pubg_player_name)]
}

fn part_keys_of(parts: &Vec<PubgMatchParticipantStats>) -> (res: Vec<String>)
    ensures
        res@.len() == parts@.len(),
        forall|i: int| 0 <= i < parts@.len() ==> (#[trigger] res@[i])@ == part_key(parts@[i]),
{
    let mut out: Vec<String> = Vec::new();
    let mut i: usize = 0;
    while i < parts.len()
        invariant
            i <= parts@.len(),
            out@.len() == i,
            forall|k: int| 0 <= k < i ==> (#[trigger] out@[k])@ == part_key(parts@[k]),
        decreases parts.len() - i,
    {
        out.push(player_identity_key(parts[i].pubg_account_id.as_str(), parts[i].pubg_player_name.as_str()));
        i = i + 1;
    }
    out
}

fn tel_keys_of(tel: &Vec<PlayerStats>) -> (res: Vec<String>)
    ensures
        res@.len() == tel@.len(),
        forall|i: int| 0 <= i < tel@.len() ==> (#[trigger] res@[i])@ == tel_key(tel@[i]),
{
    let mut out: Vec<String> = Vec::new();
    let mut i: usize = 0;
    while i < tel.len()
        invariant
            i <= tel@.len(),
            out@.len() == i,
            forall|k: int| 0 <= k < i ==> (#[trigger] out@[k])@ == tel_key(tel@[k]),
        decreases tel.len() - i,
    {
        out.push(player_identity_key(tel[i].pubg_account_id.as_str(), tel[i].pubg_player_name.as_str()));
        i = i + 1;
    }
    out
}

fn taken_before(parts: &Vec<PubgMatchParticipantStats>, part_keys: &Vec<String>, i: usize, key: &String) -> (res: bool)
    requires
        i <= parts@.len(),
        part_keys@.len() == parts@.len(),
        forall|k: int| 0 <= k < parts@.len() ==> (#[trigger] part_keys@[k])@ == part_key(parts@[k]),
    ensures
        res == key_taken(parts@, i as int, key@),
{
    let mut j: usize = 0;
    while j < i
        invariant
            j <= i <= parts@.len(),
            part_keys@.len() == parts@.len(),
            forall|k: int| 0 <= k < parts@.len() ==> (#[trigger] part_keys@[k])@ == part_key(parts@[k]),
            forall|k: int| 0 <= k < j ==> #[trigger] part_key(parts@[k]) != key@,
        decreases i - j,
    {
        if part_keys[j] == *key {
            assert(part_key(parts@[j as int]) == key@);
            return true;
        }
        j = j + 1;
    }
    false
}

fn last_tel_index(tel: &Vec<PlayerStats>, tel_keys: &Vec<String>, key: &String, n: usize) -> (res: Option<usize>)
    requires
        n <= tel@.len(),
        tel_keys@.len() == tel@.len(),
        forall|k: int| 0 <= k < tel@.len() ==> (#[trigger] tel_keys@[k])@ == tel_key(tel@[k]),
    ensures
        match res {
            Some(t) => t < tel@.len() && last_tel(tel@, key@, n as int) == t,
            None => last_tel(tel@, key@, n as int) == -1,
        },
{
    let mut m: usize = n;
    while m > 0
        invariant
            m <= n <= tel@.len(),
            tel_keys@.len() == tel@.len(),
            forall|k: int| 0 <= k < tel@.len() ==> (#[trigger] tel_keys@[k])@ == tel_key(tel@[k]),
            last_tel(tel@, key@, n as int) == last_tel(tel@, key@, m as int),
        decreases m,
    {
        if tel_keys[m - 1] == *key {
            return Some(m - 1);
        }
        m = m - 1;
    }
    None
}

/// The match's players: each participant of the API answer merged with its telemetry entry,
/// then the telemetry players that no participant matches (see `merged_stats`), ranked by
/// `merge_order`.
pub fn merge_player_stats(participant_stats: &Vec<PubgMatchParticipantStats>, telemetry_stats: &Vec<PlayerStats>) -> (res: Vec<PlayerStats>)
    ensures
        res@.map_values(|p: PlayerStats| player_stats_view(p)).to_multiset()
            == merged_stats(participant_stats@, telemetry_stats@).to_multiset(),
        sorted_by(res@, |p: PlayerStats| merge_order(p)),
        stable_order(
            merged_stats(participant_stats@, telemetry_stats@),
            res@.map_values(|p: PlayerStats| player_stats_view(p)),
            |v: PlayerStatsV| merge_order_v(v),
        ),
{
    let parts = participant_stats;
    let tel = telemetry_stats;
    let part_keys = part_keys_of(parts);
    let tel_keys = tel_keys_of(tel);
    let mut items: Vec<PlayerStats> = Vec::new();
    let mut keys: Vec<Vec<KeyPart>> = Vec::new();
    let mut i: usize = 0;
    while i < parts.len()
        invariant
            i <= parts@.len(),
            part_keys@.len() == parts@.len(),
            forall|k: int| 0 <= k < parts@.len() ==> (#[trigger] part_keys@[k])@ == part_key(parts@[k]),
            tel_keys@.len() == tel@.len(),
            forall|k: int| 0 <= k < tel@.len() ==> (#[trigger] tel_keys@[k])@ == tel_key(tel@[k]),
            items@.len() == i,
            keys@.len() == i,
            items@.map_values(|p: PlayerStats| player_stats_view(p)) == Seq::new(i as nat, |q: int| merged_participant(parts@, tel@, q)),
            forall|k: int| 0 <= k < i ==> key_view(#[trigger] keys@[k]@) == merge_order(items@[k]),
        decreases parts.len() - i,
    {
        let p = &parts[i];
        let key = &part_keys[i];
        let taken = taken_before(parts, &part_keys, i, key);
        let t: Option<usize> = if taken {
            None
        } else {
            last_tel_index(tel, &tel_keys, key, tel.len())
        };
        let team_id = if p.team_id.is_some() {
            p.team_id
        } else {
            match t {
                Some(k) => tel[k].team_id,
                None => None,
            }
        };
        let placement = if p.placement.is_some() {
            p.placement
        } else {
            match t {
                Some(k) => tel[k].placement,
                None => None,
            }
        };
        let merged = PlayerStats {
            pubg_account_id: p.pubg_account_id.clone(),
            pubg_player_name: p.pubg_player_name.clone(),
            damage: round_damage(p.damage),
            kills: p.kills,
            assists: p.assists,
            revives: p.revives,
            team_id,
            placement,
        };
        assert(player_stats_view(merged) == merged_participant(parts@, tel@, i as int));
        let mut k: Vec<KeyPart> = Vec::new();
        k.push(KeyPart::Int(-(merged.kills as i128)));
        k.push(KeyPart::Int(-(merged.assists as i128)));
        k.push(KeyPart::Int(-(merged.damage as i128)));
        k.push(KeyPart::Text(merged.pubg_player_name.clone()));
        proof {
            assert(key_view(k@) =~= merge_order(merged));
        }
        let ghost before = items@;
        items.push(merged);
        keys.push(k);
        proof {
            assert forall|q: int| 0 <= q < i + 1 implies player_stats_view(#[trigger] items@[q]) == merged_participant(parts@, tel@, q) by {
                if q < i {
                    assert(items@[q] == before[q]);
                    assert(before.map_values(|p: PlayerStats| player_stats_view(p))[q]
                        == Seq::new(i as nat, |q: int| merged_participant(parts@, tel@, q))[q]);
                }
            }
            assert(items@.map_values(|p: PlayerStats| player_stats_view(p))
                =~= Seq::new((i + 1) as nat, |q: int| merged_participant(parts@, tel@, q)));
        }
        i = i + 1;
    }
    let ghost base = items@.map_values(|p: PlayerStats| player_stats_view(p));
    let mut n: usize = 0;
    while n < tel.len()
        invariant
            n <= tel@.len(),
            parts@ == participant_stats@,
            part_keys@.len() == parts@.len(),
            forall|k: int| 0 <= k < parts@.len() ==> (#[trigger] part_keys@[k])@ == part_key(parts@[k]),
            tel_keys@.len() == tel@.len(),
            forall|k: int| 0 <= k < tel@.len() ==> (#[trigger] tel_keys@[k])@ == tel_key(tel@[k]),
            items@.len() == keys@.len(),
            items@.map_values(|p: PlayerStats| player_stats_view(p)) == base + telemetry_only(parts@, tel@, n as int),
            forall|k: int| 0 <= k < items@.len() ==> key_view(#[trigger] keys@[k]@) == merge_order(items@[k]),
        decreases tel.len() - n,
    {
        let t = &tel[n];
        let key = &tel_keys[n];
        let last = last_tel_index(tel, &tel_keys, key, tel.len());
        let is_last = match last {
            Some(m) => m == n,
            None => false,
        };
        if is_last && !taken_before(parts, &part_keys, parts.len(), key) {
            let extra = PlayerStats {
                pubg_account_id: t.pubg_account_id.clone(),
                pubg_player_name: t.pubg_player_name.clone(),
                damage: round_damage(t.damage),
                kills: t.kills,
                assists: 0,
                revives: t.revives,
                team_id: t.team_id,
                placement: t.placement,
            };
            let mut k: Vec<KeyPart> = Vec::new();
            k.push(KeyPart::Int(-(extra.kills as i128)));
            k.push(KeyPart::Int(-(extra.assists as i128)));
            k.push(KeyPart::Int(-(extra.damage as i128)));
            k.push(KeyPart::Text(extra.pubg_player_name.clone()));
            proof {
                assert(key_view(k@) =~= merge_order(extra));
            }
            let ghost before = items@;
            let ghost ev = player_stats_view(extra);
            items.push(extra);
            keys.push(k);
            proof {
                assert(items@.map_values(|p: PlayerStats| player_stats_view(p))
                    =~= before.map_values(|p: PlayerStats| player_stats_view(p)).push(ev));
                assert(forall|q: int| 0 <= q < before.len() ==> items@[q] == before[q]);
            }
        }
        n = n + 1;
    }
    let ghost built = items@;
    let sorted = sort_by_keys(items, keys, Ghost(|p: PlayerStats| merge_order(p)));
    proof {
        lemma_map_multiset(sorted@, built, |p: PlayerStats| player_stats_view(p));
        assert forall|t: PlayerStats| #[trigger] merge_order(t) == merge_order_v(player_stats_view(t)) by {}
        lemma_stable_order_views(
            built,
            sorted@,
            |p: PlayerStats| merge_order(p),
            |p: PlayerStats| player_stats_view(p),
            |v: PlayerStatsV| merge_order_v(v),
        );
    }
    sorted
}

// ----- synchronising the recent matches --------------------------------------------------

pub const NO_RECENT_MATCHES: &'static str = "No recent matches found.";

pub const BATCH_FAILED: &'static str = "Failed to sync recent matches.";

/// The recent matches to fetch (those that need it, in order) and the first one that does
/// not, whose stored data answers when nothing new succeeds.
pub open spec fn fetch_upto(ids: Seq<String>, needs: Seq<bool>, n: int) -> Seq<Seq<char>>
    decreases n,
{
    if n <= 0 {
        Seq::empty()
    } else if needs[n - 1] {
        fetch_upto(ids, needs, n - 1).push(ids[n - 1]@)
    } else {
        fetch_upto(ids, needs, n - 1)
    }
}

pub open spec fn first_fresh(needs: Seq<bool>, n: int) -> int
    decreases n,
{
    if n <= 0 {
        -1
    } else {
        let r = first_fresh(needs, n - 1);
        if r >= 0 {
            r
        } else if !needs[n - 1] {
            n - 1
        } else {
            -1
        }
    }
}

/// Splits the recent matches into those to fetch and the first stored one that is up to
/// date; `needs_refresh[i]` says whether `recent_match_ids[i]` is to be fetched.
pub fn select_matches_to_fetch(recent_match_ids: &Vec<String>, needs_refresh: &Vec<bool>) -> (res: (Vec<String>, Option<usize>))
    requires
        needs_refresh@.len() == recent_match_ids@.len(),
    ensures
        res.0@.map_values(|s: String| s@) == fetch_upto(recent_match_ids@, needs_refresh@, recent_match_ids@.len() as int),
        match res.1 {
            Some(k) => k < recent_match_ids@.len() && first_fresh(needs_refresh@, recent_match_ids@.len() as int) == k,
            None => first_fresh(needs_refresh@, recent_match_ids@.len() as int) == -1,
        },
{
    let mut to_fetch: Vec<String> = Vec::new();
    let mut fresh: Option<usize> = None;
    let mut i: usize = 0;
    while i < recent_match_ids.len()
        invariant
            i <= recent_match_ids@.len(),
            needs_refresh@.len() == recent_match_ids@.len(),
            to_fetch@.map_values(|s: String| s@) == fetch_upto(recent_match_ids@, needs_refresh@, i as int),
            match fresh {
                Some(k) => k < i && first_fresh(needs_refresh@, i as int) == k,
                None => first_fresh(needs_refresh@, i as int) == -1,
            },
        decreases recent_match_ids.len() - i,
    {
        if needs_refresh[i] {
            let ghost before = to_fetch@;
            to_fetch.push(recent_match_ids[i].clone());
            proof {
                assert(to_fetch@.map_values(|s: String| s@) =~= before.map_values(|s: String| s@).push(recent_match_ids@[i as int]@));
            }
        } else if fresh.is_none() {
            fresh = Some(i);
        }
        i = i + 1;
    }
    (to_fetch, fresh)
}

/// The answer when the account has no recent match: a failure saying so. With recent
/// matches there is none and the batch goes on.
pub fn no_recent_matches_answer(recent_match_ids: &Vec<String>) -> (res: Option<SyncResult>)
    ensures
        res is Some <==> recent_match_ids@.len() == 0,
        res matches Some(r) ==> is_failure(r, NO_RECENT_MATCHES@),
{
    if recent_match_ids.len() == 0 {
        Some(SyncResult::failed(NO_RECENT_MATCHES.to_owned()))
    } else {
        None
    }
}

/// A successful result that carries nothing.
pub open spec fn is_empty_success(r: SyncResult) -> bool {
    &&& r.success
    &&& r.match_data is None
    &&& r.players is None
    &&& r.points is None
    &&& r.error is None
}

/// How a batch goes on once the recent matches are split: done, with its answer, or fetching.
pub enum BatchStart {
    Done(SyncResult),
    Fetch(BatchProgress),
}

/// With nothing to fetch the batch is done and answers with the stored result of the first
/// up-to-date match, or an empty success when there is none; otherwise it starts fetching
/// with that stored result.
pub fn start_batch(to_fetch: &Vec<String>, latest_existing: Option<SyncResult>) -> (res: BatchStart)
    ensures
        to_fetch@.len() == 0 ==> (res matches BatchStart::Done(r) && match latest_existing {
            Some(e) => r == e,
            None => is_empty_success(r),
        }),
        to_fetch@.len() > 0 ==> (res matches BatchStart::Fetch(p) && p.latest_success == latest_existing && p.first_error is None),
{
    if to_fetch.len() == 0 {
        match latest_existing {
            Some(e) => BatchStart::Done(e),
            None => BatchStart::Done(SyncResult::empty_success()),
        }
    } else {
        BatchStart::Fetch(begin_batch(latest_existing))
    }
}

/// How a batch of fetched matches is going: the first success so far (or the stored answer)
/// and the first error met.
pub struct BatchProgress {
    pub latest_success: Option<SyncResult>,
    pub first_error: Option<String>,
}

/// Starts a batch with the stored answer, if any.
pub fn begin_batch(latest_existing: Option<SyncResult>) -> (res: BatchProgress)
    ensures
        res.latest_success == latest_existing,
        res.first_error is None,
{
    BatchProgress { latest_success: latest_existing, first_error: None }
}

/// Takes the outcome of storing one fetched match (an error when fetching or storing it
/// failed). Answers whether the match is to be marked failed: when it did not succeed. The
/// first success is kept, and the error of the first failure.
pub fn record_batch_outcome(progress: &mut BatchProgress, outcome: Result<SyncResult, AppError>) -> (mark_failed: bool)
    ensures
        mark_failed == !(outcome matches Ok(r) && r.success),
        match outcome {
            Ok(r) => if r.success {
                &&& final(progress).latest_success == if old(progress).latest_success is None {
                    Some(r)
                } else {
                    old(progress).latest_success
                }
                &&& final(progress).first_error == old(progress).first_error
            } else {
                &&& final(progress).latest_success == old(progress).latest_success
                &&& final(progress).first_error == if old(progress).first_error is Some {
                    old(progress).first_error
                } else {
                    r.error
                }
            },
            Err(AppError::Message(m)) => {
                &&& final(progress).latest_success == old(progress).latest_success
                &&& text_of(final(progress).first_error) == if old(progress).first_error is Some {
                    text_of(old(progress).first_error)
                } else {
                    Some(m@)
                }
            },
        },
{
    match outcome {
        Ok(r) => {
            if r.success {
                if progress.latest_success.is_none() {
                    progress.latest_success = Some(r);
                }
                false
            } else {
                if progress.first_error.is_none() {
                    progress.first_error = r.error;
                }
                true
            }
        },
        Err(e) => {
            if progress.first_error.is_none() {
                progress.first_error = Some(e.message());
            }
            true
        },
    }
}

/// The answer of a batch: its first success, else a failure with its first error (or a
/// generic one).
pub fn finish_batch(progress: BatchProgress) -> (res: SyncResult)
    ensures
        progress.latest_success matches Some(r) ==> res == r,
        progress.latest_success is None ==> is_failure(
            res,
            match progress.first_error {
                Some(e) => e@,
                None => BATCH_FAILED@,
            },
        ),
{
    match progress.latest_success {
        Some(r) => r,
        None => SyncResult::failed(
            match progress.first_error {
                Some(e) => e,
                None => BATCH_FAILED.to_string(),
            },
        ),
    }
}

/// What to do after an attempt of the automatic synchronisation: stop, or retry after the
/// delay; in both cases with a log line.
pub enum RetryAction {
    Stop { level: LogLevel, message: String },
    Retry { level: LogLevel, message: String },
}

pub const AUTO_SYNC_FAILED: &'static str = "automatic recent-match sync failed";

/// The decision after attempt number `attempts` of the automatic synchronisation: a success
/// stops it; a failure retries until more than `retry_limit + 1` attempts were made.
pub fn retry_decision(attempts: u64, retry_limit: u64, retry_delay_seconds: u64, outcome: Result<SyncResult, AppError>) -> (res: RetryAction)
    ensures
        (outcome matches Ok(r) && r.success) ==> (res matches RetryAction::Stop { level, message } && level == LogLevel::Info
            && message@ == if attempts == 1 {
            "automatic recent-match sync completed"@
        } else {
            "automatic recent-match sync completed after "@ + nat_digits(attempts as nat) + " attempts"@
        }),
        !(outcome matches Ok(r) && r.success) ==> {
            let error_message = match outcome {
                Ok(r) => match r.error {
                    Some(e) => e@,
                    None => AUTO_SYNC_FAILED@,
                },
                Err(AppError::Message(m)) => m@,
            };
            let limit = if retry_limit == u64::MAX {
                u64::MAX as int
            } else {
                retry_limit + 1
            };
            if attempts > limit {
                res matches RetryAction::Stop { level, message } && level == LogLevel::Error && message@
                    == "automatic recent-match sync failed after "@ + nat_digits(attempts as nat) + " attempts: "@ + error_message
            } else {
                res matches RetryAction::Retry { level, message } && level == LogLevel::Warn && message@
                    == "automatic recent-match sync attempt "@ + nat_digits(attempts as nat) + " failed: "@ + error_message
                    + "; retrying in "@ + nat_digits(retry_delay_seconds as nat) + " seconds"@
            }
        },
{
    let attempts_text = u64_to_string(attempts);
    let error_message = match outcome {
        Ok(r) => {
            if r.success {
                let message = if attempts == 1 {
                    "automatic recent-match sync completed".to_string()
                } else {
                    let a = concat("automatic recent-match sync completed after ", attempts_text.as_str());
                    concat(a.as_str(), " attempts")
                };
                return RetryAction::Stop { level: LogLevel::Info, message };
            }
            match r.error {
                Some(e) => e,
                None => AUTO_SYNC_FAILED.to_string(),
            }
        },
        Err(e) => e.message(),
    };
    let limit = retry_limit.saturating_add(1);
    if attempts > limit {
        let a = concat("automatic recent-match sync failed after ", attempts_text.as_str());
        let b = concat(a.as_str(), " attempts: ");
        let message = concat(b.as_str(), error_message.as_str());
        RetryAction::Stop { level: LogLevel::Error, message }
    } else {
        let a = concat("automatic recent-match sync attempt ", attempts_text.as_str());
        let b = concat(a.as_str(), " failed: ");
        let c = concat(b.as_str(), error_message.as_str());
        let d = concat(c.as_str(), "; retrying in ");
        let e = concat(d.as_str(), u64_to_string(retry_delay_seconds).as_str());
        let message = concat(e.as_str(), " seconds");
        RetryAction::Retry { level: LogLevel::Warn, message }
    }
}

} // verus!
