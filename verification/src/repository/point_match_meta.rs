//! Notes on matches and the settlement of their points.

use vstd::prelude::*;
use crate::error::{app_error, AppError};
use crate::text::str_eq;

verus! {

#[derive(Debug, Clone)]
pub struct PointMatchMetaDto {
    pub id: i64,
    pub account_id: i64,
    pub match_id: String,
    pub note: Option<String>,
    pub settled_at: Option<String>,
    pub settlement_batch_id: Option<i64>,
    pub created_at: String,
    pub updated_at: String,
}

#[derive(Debug, Clone)]
pub struct SettleThroughMatchResultDto {
    pub settlement_batch_id: i64,
    pub settled_match_count: i64,
}

/// The position of the first id equal to `target`, or -1.
pub open spec fn position_of(ids: Seq<String>, target: Seq<char>) -> int
    decreases ids.len(),
{
    if ids.len() == 0 {
        -1
    } else {
        let r = position_of(ids.drop_last(), target);
        if r >= 0 {
            r
        } else if ids.last()@ == target {
            ids.len() - 1
        } else {
            -1
        }
    }
}

/// The matches that settling through `end_match_id` settles: the unsettled matches (oldest
/// first) up to and including the first one with that id. Fails with "No unsettled matches
/// available" when nothing is unsettled, and with "Target endMatchId is not in unsettled
/// interval" when the id is not among them.
pub fn settlement_interval(unsettled_match_ids: &Vec<String>, end_match_id: &str) -> (res: Result<Vec<String>, AppError>)
    ensures
        unsettled_match_ids@.len() == 0 ==> (res matches Err(AppError::Message(m)) && m@ == "No unsettled matches available"@),
        unsettled_match_ids@.len() > 0 && position_of(unsettled_match_ids@, end_match_id@) < 0
            ==> (res matches Err(AppError::Message(m)) && m@ == "Target endMatchId is not in unsettled interval"@),
        unsettled_match_ids@.len() > 0 && position_of(unsettled_match_ids@, end_match_id@) >= 0 ==> (res matches Ok(ids)
            && ids@ == unsettled_match_ids@.take(position_of(unsettled_match_ids@, end_match_id@) + 1)),
{
    if unsettled_match_ids.len() == 0 {
        return Err(app_error("No unsettled matches available"));
    }
    let mut out: Vec<String> = Vec::new();
    let mut i: usize = 0;
    while i < unsettled_match_ids.len()
        invariant
            i <= unsettled_match_ids@.len(),
            position_of(unsettled_match_ids@.take(i as int), end_match_id@) < 0,
            out@ == unsettled_match_ids@.take(i as int),
        decreases unsettled_match_ids.len() - i,
    {
        let id = &unsettled_match_ids[i];
        let ghost t = unsettled_match_ids@.take(i + 1);
        assert(t.drop_last() =~= unsettled_match_ids@.take(i as int));
        out.push(id.clone());
        assert(out@ =~= t);
        if str_eq(id.as_str(), end_match_id) {
            proof {
                lemma_position_prefix(unsettled_match_ids@, end_match_id@, i + 1);
            }
            return Ok(out);
        }
        i = i + 1;
    }
    proof {
        assert(unsettled_match_ids@.take(i as int) =~= unsettled_match_ids@);
    }
    Err(app_error("Target endMatchId is not in unsettled interval"))
}

/// A position found in a prefix is the position in the whole sequence.
proof fn lemma_position_prefix(ids: Seq<String>, target: Seq<char>, n: int)
    requires
        0 <= n <= ids.len(),
        position_of(ids.take(n), target) >= 0,
    ensures
        position_of(ids, target) == position_of(ids.take(n), target),
    decreases ids.len() - n,
{
    if n < ids.len() {
        assert(ids.take(n + 1).drop_last() =~= ids.take(n));
        lemma_position_prefix(ids, target, n + 1);
    } else {
        assert(ids.take(n) =~= ids);
    }
}

/// Whether settling one match is to write anything: fails with "Match not found" when the
/// match is not on record; a match already settled, or without points, is left alone.
pub fn single_settlement_needed(match_exists: bool, already_settled: bool, has_points: bool) -> (res: Result<bool, AppError>)
    ensures
        !match_exists ==> (res matches Err(AppError::Message(m)) && m@ == "Match not found"@),
        match_exists ==> (res matches Ok(b) && b == (!already_settled && has_points)),
{
    if !match_exists {
        return Err(app_error("Match not found"));
    }
    Ok(!already_settled && has_points)
}

} // verus!
