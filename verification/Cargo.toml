[package]
name = "litforge_notes"
version = "0.1.0"
edition = "2021"
publish = false

[dependencies]
anyhow = "1"
chrono = { version = "0.4", features = ["serde"] }
dirs = "*"
glob = "0.3"
log = "0.4"
once_cell = "1"
serde = { version = "1", features = ["derive"] }
serde_json = "1"
sqlx = { version = "0.8", default-features = false, features = ["sqlite", "runtime-tokio", "chrono", "derive", "migrate"] }
thiserror = "*"
tokio = { version = "1", features = ["rt", "sync", "macros"] }
uuid = { version = "1", features = ["v4"] }

[dev-dependencies]
regex = "1"
