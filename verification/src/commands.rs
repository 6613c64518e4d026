pub mod accounts;
pub mod app;
pub mod logs;
pub mod notifications;
pub mod points;
pub mod rules;
pub mod sync;
pub mod teammates;
