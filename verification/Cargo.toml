[package]
name = "common"
version = "0.1.0"
edition = "2021"
publish = false

[dependencies]
async-trait = "=0.1.92"
chrono = "=0.4.45"
deadpool = "=0.13.1"
deadpool-postgres = "=0.14.2"
deadpool-redis = "=0.23.1"
redis = "=1.8.0"
serde_json = "=1.0.154"
tokio-postgres = { version = "=0.7.18", features = ["with-chrono-0_4", "with-serde_json-1"] }
