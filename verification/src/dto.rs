pub mod sync_status;
