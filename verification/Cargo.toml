[package]
name = "contributor_cache"
version = "0.1.0"
edition = "2021"
publish = false

[dependencies]
log = "*"
reqwest = { version = "*", default-features = false, features = ["json"] }
serde = { version = "*", features = ["derive"] }
serde_json = "*"
tokio = { version = "*", features = ["rt-multi-thread", "macros", "time", "sync"] }
