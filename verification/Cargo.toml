[package]
name = "cntrl_browser"
version = "0.1.0"
edition = "2021"
publish = false

[dependencies]
uuid = { version = "1", features = ["v4", "serde"] }
keyring = { version = "3", features = ["linux-native"] }
urlencoding = "2"
serde = { version = "1", features = ["derive"] }
serde_json = "1"
reqwest = { version = "0.12", default-features = false, features = ["json", "rustls-tls"] }
tokio = { version = "1", features = ["rt-multi-thread", "macros", "time", "sync"] }
rusqlite = { version = "0.32", features = ["bundled"] }
sqlx = { version = "0.8", default-features = false, features = ["sqlite", "runtime-tokio"] }
chrono = "0.4"
parking_lot = "0.12"
thiserror = "1"
async-trait = "0.1"
