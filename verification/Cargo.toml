[package]
name = "realmkbot"
version = "0.1.0"
edition = "2021"
publish = false

[dependencies]
rusqlite = { version = "*", features = ["bundled"] }
rusqlite_migration = "*"
grammers-client = "*"
grammers-mtsender = "*"
tokio = { version = "*", features = ["rt", "macros", "time", "fs", "sync"] }
futures = "*"
color-eyre = "*"
dirs = "*"
dotenvy = "*"
figment = { version = "*", features = ["env", "json", "toml"] }
log = "*"
pretty_env_logger = "*"
redacted_debug = "*"
serde = { version = "*", features = ["derive"] }
tap = "*"
