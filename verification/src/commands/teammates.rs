//! Requests about teammates and their answers.

use vstd::prelude::*;
use crate::error::{app_error, AppError};
use crate::repository::points::PointRecordDto;
use crate::repository::teammates::{CreateTeammateInput, TeammateDto, UpdateTeammateInput};

verus! {

#[derive(Debug, Clone)]
pub struct CreateTeammateRequest {
    pub platform: String,
    pub pubg_account_id: Option<String>,
    pub pubg_player_name: String,
    pub display_nickname: Option<String>,
    pub is_points_enabled: Option<bool>,
}

#[derive(Debug, Clone)]
pub struct UpdateTeammateRequest {
    pub id: i64,
    pub display_nickname: Option<String>,
    pub is_points_enabled: Option<bool>,
}

#[derive(Debug, Clone)]
pub struct TeammateHistoryResponse {
    pub teammate: TeammateDto,
    pub records: Vec<PointRecordDto>,
    pub total_matches: i64,
}

#[derive(Debug, Clone)]
pub struct ManualTeammateSyncResponse {
    pub success: bool,
    pub scanned_matches: usize,
    pub synced_teammates: usize,
    pub error: Option<String>,
}

/// The teammate to create for a request; points count unless the request says otherwise.
pub fn create_teammate_input(input: CreateTeammateRequest) -> (res: CreateTeammateInput)
    ensures
        res.platform == input.platform,
        res.pubg_account_id == input.pubg_account_id,
        res.pubg_player_name == input.pubg_player_name,
        res.display_nickname == input.display_nickname,
        res.is_points_enabled == match input.is_points_enabled {
            Some(b) => b,
            None => true,
        },
{
    CreateTeammateInput {
        platform: input.platform,
        pubg_account_id: input.pubg_account_id,
        pubg_player_name: input.pubg_player_name,
        display_nickname: input.display_nickname,
        is_points_enabled: match input.is_points_enabled {
            Some(b) => b,
            None => true,
        },
    }
}

/// The update of a teammate for a request.
pub fn update_teammate_input(input: UpdateTeammateRequest) -> (res: UpdateTeammateInput)
    ensures
        res.id == input.id,
        res.display_nickname == input.display_nickname,
        res.is_points_enabled == input.is_points_enabled,
{
    UpdateTeammateInput { id: input.id, display_nickname: input.display_nickname, is_points_enabled: input.is_points_enabled }
}

/// A teammate's history: fails with "Teammate not found" when there is no such teammate;
/// otherwise the teammate, its point records and how many there are.
pub fn teammate_history(teammate: Option<TeammateDto>, records: Vec<PointRecordDto>) -> (res: Result<TeammateHistoryResponse, AppError>)
    requires
        records@.len() <= i64::MAX,
    ensures
        teammate is None ==> (res matches Err(AppError::Message(m)) && m@ == "Teammate not found"@),
        teammate matches Some(t) ==> (res matches Ok(h) && h.teammate == t && h.records@ == records@
            && h.total_matches == records@.len()),
{
    match teammate {
        None => Err(app_error("Teammate not found")),
        Some(t) => {
            let total = records.len() as i64;
            Ok(TeammateHistoryResponse { teammate: t, records, total_matches: total })
        },
    }
}

} // verus!
