//! The application's status as the interface shows it.

use vstd::prelude::*;
use crate::services::sync::{text_of, SyncRuntimeStatus};

verus! {

#[derive(Debug, Clone)]
pub struct SyncStatusDto {
    pub is_syncing: bool,
    pub last_sync_at: Option<String>,
    pub current_match_id: Option<String>,
    pub error: Option<String>,
}

#[derive(Debug, Clone)]
pub struct AppStatusDto {
    pub version: String,
    pub database_path: String,
    pub is_database_ready: bool,
    pub sync_status: SyncStatusDto,
}

/// The application's status: its version and database, which is ready, and the
/// synchronisation status; a blank last-sync time is none.
pub fn app_status(version: String, database_path: String, runtime_status: SyncRuntimeStatus, last_sync_at: String) -> (res: AppStatusDto)
    ensures
        res.version@ == version@,
        res.database_path@ == database_path@,
        res.is_database_ready,
        res.sync_status.is_syncing == runtime_status.is_syncing,
        text_of(res.sync_status.last_sync_at) == if last_sync_at@.len() == 0 {
            None
        } else {
            Some(last_sync_at@)
        },
        text_of(res.sync_status.current_match_id) == text_of(runtime_status.current_match_id),
        text_of(res.sync_status.error) == text_of(runtime_status.last_error),
{
    let last = if last_sync_at.as_str().is_empty() {
        None
    } else {
        Some(last_sync_at)
    };
    AppStatusDto {
        version,
        database_path,
        is_database_ready: true,
        sync_status: SyncStatusDto {
            is_syncing: runtime_status.is_syncing,
            last_sync_at: last,
            current_match_id: runtime_status.current_match_id,
            error: runtime_status.last_error,
        },
    }
}

} // verus!
