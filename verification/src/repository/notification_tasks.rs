//! Notification tasks as stored.

use vstd::prelude::*;

verus! {

#[derive(Debug, Clone)]
pub struct CreateNotificationTaskInput {
    pub match_id: String,
    pub message_body: String,
    pub preview_match_time: String,
    pub preview_placement: Option<i64>,
    pub preview_battle_summary: String,
}

#[derive(Debug, Clone)]
pub struct NotificationTaskDto {
    pub id: i64,
    pub account_id: i64,
    pub match_id: String,
    pub status: String,
    pub retry_count: i64,
    pub next_retry_at: Option<String>,
    pub message_body: String,
    pub preview_match_time: String,
    pub preview_placement: Option<i64>,
    pub preview_battle_summary: String,
    pub last_error: Option<String>,
    pub sent_at: Option<String>,
    pub deleted_at: Option<String>,
    pub created_at: String,
    pub updated_at: String,
}

#[derive(Debug, Clone)]
pub struct NotificationFailedTaskDto {
    pub id: i64,
    pub match_id: String,
    pub match_time: String,
    pub placement: Option<i64>,
    pub battle_summary: String,
    pub last_error: Option<String>,
    pub send_status: String,
}

#[derive(Debug, Clone)]
pub struct FailedNotificationTaskRow {
    pub id: i64,
    pub match_id: String,
    pub message_body: String,
}

} // verus!
