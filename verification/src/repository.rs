pub mod points;
pub mod point_summary;
pub mod rules;
pub mod point_repair;
pub mod point_match_meta;
pub mod matches;
pub mod notification_tasks;
pub mod accounts;
pub mod settings;
pub mod teammates;
