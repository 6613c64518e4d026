//! Teammates as stored.

use vstd::prelude::*;
use crate::parser::telemetry::{first_where, lemma_first_where};
use crate::sort::{key_view, lemma_map_multiset, lemma_stable_order_views, sort_by_keys, sorted_by, stable_order, text_lt, compare_text, KeyPart, KeyV};
use crate::text::{ascii_lower_seq, concat, to_ascii_lowercase, trim, trim_seq};

verus! {

#[derive(Debug, Clone)]
pub struct TeammateDto {
    pub id: i64,
    pub account_id: i64,
    pub platform: String,
    pub pubg_account_id: Option<String>,
    pub pubg_player_name: String,
    pub display_nickname: Option<String>,
    pub is_friend: bool,
    pub is_points_enabled: bool,
    pub total_points: i64,
    pub last_seen_at: Option<String>,
    pub created_at: String,
    pub updated_at: String,
}

#[derive(Debug, Clone)]
pub struct RecentTeammateCandidateDto {
    pub platform: String,
    pub pubg_account_id: Option<String>,
    pub pubg_player_name: String,
    pub last_teammate_at: String,
    pub is_friend: bool,
}

#[derive(Debug, Clone)]
pub struct CreateTeammateInput {
    pub platform: String,
    pub pubg_account_id: Option<String>,
    pub pubg_player_name: String,
    pub display_nickname: Option<String>,
    pub is_points_enabled: bool,
}

#[derive(Debug, Clone)]
pub struct UpdateTeammateInput {
    pub id: i64,
    pub display_nickname: Option<String>,
    pub is_points_enabled: Option<bool>,
}

/// A player of the own team in one of the recent matches, newest match first.
#[derive(Debug, Clone)]
pub struct RecentTeammateCandidateRow {
    pub platform: String,
    pub pubg_account_id: Option<String>,
    pub pubg_player_name: String,
    pub last_teammate_at: String,
}

/// The key under which candidates are merged: the account id when it is not blank, else the
/// lower-cased name.
pub open spec fn candidate_key(r: RecentTeammateCandidateRow) -> Seq<char> {
    match r.pubg_account_id {
        Some(a) => if trim_seq(a@).len() > 0 {
            "account:"@ + a@
        } else {
            "name:"@ + ascii_lower_seq(r.pubg_player_name@)
        },
        None => "name:"@ + ascii_lower_seq(r.pubg_player_name@),
    }
}

pub open spec fn text_of(o: Option<String>) -> Option<Seq<char>> {
    match o {
        Some(s) => Some(s@),
        None => None,
    }
}

/// A candidate as plain values.
pub struct CandidateV {
    pub key: Seq<char>,
    pub platform: Seq<char>,
    pub pubg_account_id: Option<Seq<char>>,
    pub pubg_player_name: Seq<char>,
    pub last_teammate_at: Seq<char>,
}

pub open spec fn row_candidate(r: RecentTeammateCandidateRow) -> CandidateV {
    CandidateV {
        key: candidate_key(r),
        platform: r.platform@,
        pubg_account_id: text_of(r.pubg_account_id),
        pubg_player_name: r.pubg_player_name@,
        last_teammate_at: r.last_teammate_at@,
    }
}

pub open spec fn has_key(key: Seq<char>) -> spec_fn(CandidateV) -> bool {
    |c: CandidateV| c.key == key
}

/// The candidates among the first `n` rows: players who are not already friends, one per
/// key, each the row seen at the latest time (the first such row on a tie).
pub open spec fn candidates_upto(rows: Seq<RecentTeammateCandidateRow>, is_friend: Seq<bool>, n: int) -> Seq<CandidateV>
    decreases n,
{
    if n <= 0 {
        Seq::empty()
    } else {
        let prev = candidates_upto(rows, is_friend, n - 1);
        if is_friend[n - 1] {
            prev
        } else {
            let c = row_candidate(rows[n - 1]);
            let k = first_where(prev, has_key(c.key));
            if k < 0 {
                prev.push(c)
            } else if text_lt(prev[k].last_teammate_at, c.last_teammate_at) {
                prev.update(k, c)
            } else {
                prev
            }
        }
    }
}

pub open spec fn candidate_view(c: RecentTeammateCandidateDto) -> (Seq<char>, Option<Seq<char>>, Seq<char>, Seq<char>, bool) {
    (c.platform@, text_of(c.pubg_account_id), c.pubg_player_name@, c.last_teammate_at@, c.is_friend)
}

pub open spec fn candidate_out(c: CandidateV) -> (Seq<char>, Option<Seq<char>>, Seq<char>, Seq<char>, bool) {
    (c.platform, c.pubg_account_id, c.pubg_player_name, c.last_teammate_at, false)
}

/// Latest first, then by name.
pub open spec fn candidate_order(c: RecentTeammateCandidateDto) -> Seq<KeyV> {
    seq![KeyV::TextRev(c.last_teammate_at@), KeyV::Text(c.pubg_player_name@)]
}

/// `candidate_order` read on a candidate's view.
pub open spec fn candidate_order_v(c: (Seq<char>, Option<Seq<char>>, Seq<char>, Seq<char>, bool)) -> Seq<KeyV> {
    seq![KeyV::TextRev(c.3), KeyV::Text(c.2)]
}

struct CandidateEntry {
    key: String,
    row: RecentTeammateCandidateRow,
}

spec fn entry_view(e: CandidateEntry) -> CandidateV {
    CandidateV {
        key: e.key@,
        platform: e.row.platform@,
        pubg_account_id: text_of(e.row.pubg_account_id),
        pubg_player_name: e.row.pubg_player_name@,
        last_teammate_at: e.row.last_teammate_at@,
    }
}

spec fn entries_view(s: Seq<CandidateEntry>) -> Seq<CandidateV> {
    s.map_values(|e: CandidateEntry| entry_view(e))
}

fn copy_text(o: &Option<String>) -> (res: Option<String>)
    ensures
        text_of(res) == text_of(*o),
{
    match o {
        Some(s) => Some(s.clone()),
        None => None,
    }
}

fn key_of_row(r: &RecentTeammateCandidateRow) -> (res: String)
    ensures
        res@ == candidate_key(*r),
{
    match &r.pubg_account_id {
        Some(a) => {
            let t = trim(a.as_str());
            if !t.as_str().is_empty() {
                return concat("account:", a.as_str());
            }
        },
        None => {},
    }
    let lower = to_ascii_lowercase(r.pubg_player_name.as_str());
    concat("name:", lower.as_str())
}

fn find_candidate(entries: &Vec<CandidateEntry>, key: &String) -> (res: Option<usize>)
    ensures
        match res {
            Some(k) => k < entries@.len() && first_where(entries_view(entries@), has_key(key@)) == k,
            None => first_where(entries_view(entries@), has_key(key@)) == -1,
        },
{
    let ghost s = entries_view(entries@);
    let mut k: usize = 0;
    while k < entries.len()
        invariant
            k <= entries@.len(),
            s == entries_view(entries@),
            forall|j: int| 0 <= j < k ==> !has_key(key@)(#[trigger] s[j]),
        decreases entries.len() - k,
    {
        if entries[k].key == *key {
            proof {
                lemma_first_where(s, has_key(key@), k as int);
            }
            return Some(k);
        }
        k = k + 1;
    }
    proof {
        lemma_first_where(s, has_key(key@), k as int);
    }
    None
}

/// Players of the own team in the recent matches who are not friends yet (`is_friend[i]`
/// says whether the player of `rows[i]` is one), merged by `candidate_key` keeping the
/// latest sighting (see `candidates_upto`), latest first (see `candidate_order`).
pub fn recent_candidates(rows: &Vec<RecentTeammateCandidateRow>, is_friend: &Vec<bool>) -> (res: Vec<RecentTeammateCandidateDto>)
    requires
        is_friend@.len() == rows@.len(),
    ensures
        res@.map_values(|c: RecentTeammateCandidateDto| candidate_view(c)).to_multiset()
            == candidates_upto(rows@, is_friend@, rows@.len() as int).map_values(|c: CandidateV| candidate_out(c)).to_multiset(),
        sorted_by(res@, |c: RecentTeammateCandidateDto| candidate_order(c)),
        stable_order(
            candidates_upto(rows@, is_friend@, rows@.len() as int).map_values(|c: CandidateV| candidate_out(c)),
            res@.map_values(|c: RecentTeammateCandidateDto| candidate_view(c)),
            |c: (Seq<char>, Option<Seq<char>>, Seq<char>, Seq<char>, bool)| candidate_order_v(c),
        ),
{
    let mut entries: Vec<CandidateEntry> = Vec::new();
    let mut i: usize = 0;
    while i < rows.len()
        invariant
            i <= rows@.len(),
            is_friend@.len() == rows@.len(),
            entries_view(entries@) == candidates_upto(rows@, is_friend@, i as int),
        decreases rows.len() - i,
    {
        if !is_friend[i] {
            let r = &rows[i];
            let key = key_of_row(r);
            let ghost before = entries_view(entries@);
            let ghost c = row_candidate(*r);
            let found = find_candidate(&entries, &key);
            let fresh = CandidateEntry {
                key,
                row: RecentTeammateCandidateRow {
                    platform: r.platform.clone(),
                    pubg_account_id: copy_text(&r.pubg_account_id),
                    pubg_player_name: r.pubg_player_name.clone(),
                    last_teammate_at: r.last_teammate_at.clone(),
                },
            };
            assert(entry_view(fresh) == c);
            match found {
                None => {
                    entries.push(fresh);
                    proof {
                        assert(entries_view(entries@) =~= before.push(c));
                    }
                },
                Some(k) => {
                    let later = compare_text(entries[k].row.last_teammate_at.as_str(), r.last_teammate_at.as_str()) < 0;
                    assert(before[k as int] == entry_view(entries@[k as int]));
                    if later {
                        entries.set(k, fresh);
                        proof {
                            assert(entries_view(entries@) =~= before.update(k as int, c));
                        }
                    }
                },
            }
        }
        i = i + 1;
    }
    let mut items: Vec<RecentTeammateCandidateDto> = Vec::new();
    let mut keys: Vec<Vec<KeyPart>> = Vec::new();
    let mut q: usize = 0;
    while q < entries.len()
        invariant
            q <= entries@.len(),
            items@.len() == q,
            keys@.len() == q,
            items@.map_values(|c: RecentTeammateCandidateDto| candidate_view(c))
                == entries_view(entries@).take(q as int).map_values(|c: CandidateV| candidate_out(c)),
            forall|k: int| 0 <= k < q ==> key_view(#[trigger] keys@[k]@) == candidate_order(items@[k]),
        decreases entries.len() - q,
    {
        let e = &entries[q];
        let item = RecentTeammateCandidateDto {
            platform: e.row.platform.clone(),
            pubg_account_id: copy_text(&e.row.pubg_account_id),
            pubg_player_name: e.row.pubg_player_name.clone(),
            last_teammate_at: e.row.last_teammate_at.clone(),
            is_friend: false,
        };
        let mut key: Vec<KeyPart> = Vec::new();
        key.push(KeyPart::TextRev(item.last_teammate_at.clone()));
        key.push(KeyPart::Text(item.pubg_player_name.clone()));
        proof {
            assert(key_view(key@) =~= candidate_order(item));
        }
        let ghost before = items@;
        let ghost iv = candidate_view(item);
        assert(iv == candidate_out(entries_view(entries@)[q as int]));
        items.push(item);
        keys.push(key);
        proof {
            assert(entries_view(entries@).take(q + 1) =~= entries_view(entries@).take(q as int).push(entries_view(entries@)[q as int]));
            assert(items@.map_values(|c: RecentTeammateCandidateDto| candidate_view(c))
                =~= before.map_values(|c: RecentTeammateCandidateDto| candidate_view(c)).push(iv));
            assert(forall|k: int| 0 <= k < q ==> items@[k] == before[k]);
        }
        q = q + 1;
    }
    assert(entries_view(entries@).take(entries@.len() as int) =~= entries_view(entries@));
    let ghost built = items@;
    let sorted = sort_by_keys(items, keys, Ghost(|c: RecentTeammateCandidateDto| candidate_order(c)));
    proof {
        lemma_map_multiset(sorted@, built, |c: RecentTeammateCandidateDto| candidate_view(c));
        assert forall|t: RecentTeammateCandidateDto| #[trigger] candidate_order(t) == candidate_order_v(candidate_view(t)) by {}
        lemma_stable_order_views(
            built,
            sorted@,
            |c: RecentTeammateCandidateDto| candidate_order(c),
            |c: RecentTeammateCandidateDto| candidate_view(c),
            |c: (Seq<char>, Option<Seq<char>>, Seq<char>, Seq<char>, bool)| candidate_order_v(c),
        );
    }
    sorted
}

} // verus!
