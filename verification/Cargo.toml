[package]
name = "peerx"
version = "0.1.0"
edition = "2021"
publish = false

[dependencies]
soroban-sdk = "22"
tokio = { version = "1", features = ["macros", "rt-multi-thread", "time"] }
warp = { version = "0.3", default-features = false }
reqwest = { version = "0.12", default-features = false, features = ["json"] }
prometheus = { version = "0.13", default-features = false }
serde = { version = "1", features = ["derive"] }
serde_json = "1"
tracing = "0.1"
tracing-subscriber = { version = "0.3", features = ["env-filter", "fmt"] }
dotenvy = "0.15"
