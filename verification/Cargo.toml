[package]
name = "trail"
version = "0.1.0"
edition = "2021"
publish = false

[dependencies]
chrono = "0.4"
semver = "1"
serde = { version = "1", features = ["derive"] }
serde_json = "1"
ureq = { version = "3", features = ["json"] }
crossterm = "*"
ratatui = "*"
rusqlite = { version = "*", features = ["bundled", "chrono"] }
dirs = "*"
uuid = { version = "1", features = ["v4"] }
