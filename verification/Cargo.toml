[package]
name = "redis_kv"
version = "0.1.0"
edition = "2021"
publish = false

[dependencies]
mini-redis = "0.4"
bytes = "1"
tokio = { version = "1", features = ["full"] }
clap = "2"
