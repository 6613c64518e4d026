//! The synchronisation status as the interface shows it.

use vstd::prelude::*;

verus! {

#[derive(Debug, Clone)]
pub struct SyncStatusDto {
    pub is_syncing: bool,
    pub last_sync_at: Option<String>,
    pub current_match_id: Option<String>,
    pub error: Option<String>,
}

} // verus!
