//! Requests about notifications.

use vstd::prelude::*;

verus! {

#[derive(Debug, Clone)]
pub struct SendSelectedNotificationsInput {
    pub task_ids: Vec<i64>,
}

#[derive(Debug, Clone)]
pub struct DeleteFailedNotificationInput {
    pub task_id: i64,
}

} // verus!
