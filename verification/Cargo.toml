[package]
name = "pubg_point_rankings"
version = "0.1.0"
edition = "2021"
publish = false

[dependencies]
chrono = "0.4"
urlencoding = "2"
serde = { version = "1", features = ["derive"] }
serde_json = "1"
rusqlite = { version = "*", features = ["bundled"] }
ureq = { version = "2", features = ["json"] }
dirs = "*"
zip = { version = "*", default-features = false, features = ["deflate"] }
