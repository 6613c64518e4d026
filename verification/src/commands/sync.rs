//! Requests about synchronisation and their answers.

use vstd::prelude::*;
use crate::engine::calculator::CalculatedPoints;
use crate::repository::matches::{MatchDto, MatchPlayerDto};
use crate::services::sync::{text_of, SyncResult, SyncRuntimeStatus};

verus! {

#[derive(Debug, Clone)]
pub struct SyncStatusDto {
    pub is_syncing: bool,
    pub last_sync_at: Option<String>,
    pub current_match_id: Option<String>,
    pub error: Option<String>,
}

#[derive(Debug, Clone)]
pub struct SyncStartResultDto {
    pub success: bool,
    pub error: Option<String>,
}

#[derive(Debug, Clone)]
pub struct SyncStartMatchResultDto {
    pub success: bool,
    pub match_data: Option<MatchDto>,
    pub players: Option<Vec<MatchPlayerDto>>,
    pub points: Option<Vec<CalculatedPoints>>,
    pub error: Option<String>,
}

/// The synchronisation status; a blank last-sync time is none.
pub fn sync_status(runtime_status: SyncRuntimeStatus, last_sync_at: String) -> (res: SyncStatusDto)
    ensures
        res.is_syncing == runtime_status.is_syncing,
        text_of(res.last_sync_at) == if last_sync_at@.len() == 0 {
            None
        } else {
            Some(last_sync_at@)
        },
        text_of(res.current_match_id) == text_of(runtime_status.current_match_id),
        text_of(res.error) == text_of(runtime_status.last_error),
{
    let last = if last_sync_at.as_str().is_empty() {
        None
    } else {
        Some(last_sync_at)
    };
    SyncStatusDto {
        is_syncing: runtime_status.is_syncing,
        last_sync_at: last,
        current_match_id: runtime_status.current_match_id,
        error: runtime_status.last_error,
    }
}

/// The answer to starting a synchronisation.
pub fn sync_start_result(result: SyncResult) -> (res: SyncStartResultDto)
    ensures
        res.success == result.success,
        res.error == result.error,
{
    SyncStartResultDto { success: result.success, error: result.error }
}

/// The answer to synchronising one match.
pub fn sync_start_match_result(result: SyncResult) -> (res: SyncStartMatchResultDto)
    ensures
        res.success == result.success,
        res.match_data == result.match_data,
        res.players == result.players,
        res.points == result.points,
        res.error == result.error,
{
    SyncStartMatchResultDto {
        success: result.success,
        match_data: result.match_data,
        players: result.players,
        points: result.points,
        error: result.error,
    }
}

} // verus!
