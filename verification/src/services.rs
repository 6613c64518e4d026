pub mod polling;
pub mod sync;
pub mod notifications;
pub mod napcat_runtime;
pub mod logs;
pub mod persist;
