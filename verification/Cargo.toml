[package]
name = "tiered_kv"
version = "0.1.0"
edition = "2021"
publish = false

[dependencies]
cuckoofilter = "0.5"
serde_json = "1"
rand = "0.8"
ed25519-dalek = "2"
serde = { version = "1", features = ["derive"] }
tokio = { version = "1", features = ["macros", "rt-multi-thread"] }
futures = "0.3"
async-trait = "0.1"
warp = { version = "0.3", default-features = false }
redis = { version = "0.23", features = ["tokio-comp", "connection-manager"] }
mongodb = "2"
config = { version = "0.13", default-features = false, features = ["toml"] }
chrono = "0.4"
tracing = "0.1"
tracing-subscriber = "0.3"
