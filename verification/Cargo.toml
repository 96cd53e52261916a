[package]
name = "semantic_explorer_api"
version = "0.1.0"
edition = "2021"
publish = false

[dependencies]
regex = "1"
sha2 = "0.10"
chrono = "0.4"
url = "2"
serde = { version = "1", features = ["derive"] }
serde_json = "1"
actix-web = "4"
tokio = { version = "1", features = ["rt-multi-thread", "macros"] }
tracing = "0.1"
redis = { version = "*", features = ["cluster-async", "tokio-comp"] }
