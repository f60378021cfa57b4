[package]
name = "sidekiq_rs"
version = "0.1.0"
edition = "2021"
publish = false

[dependencies]
chan = "0.1"
chan-signal = "0.3"
chrono = "0.4"
libc = "0.2"
log = "0.4"
r2d2 = "0.8"
r2d2_redis = "0.14"
rand = "0.8"
random_choice = "0.3"
redis = "0.20"
serde = { version = "1", features = ["derive"] }
serde_json = "1"
threadpool = "1"
