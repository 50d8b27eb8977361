[package]
name = "cuttlestore"
version = "0.3.0"
edition = "2021"
publish = false

[dependencies]
async-stream = "=0.3.6"
async-trait = "=0.1.92"
bb8 = "=0.8.6"
bb8-redis = "=0.13.1"
bincode = "=1.3.3"
dashmap = "=5.5.3"
futures = "=0.3.34"
log = "=0.4.34"
serde = { version = "=1.0.229", features = ["derive"] }
sqlx = { version = "=0.6.3", default-features = false, features = ["sqlite", "runtime-tokio-rustls"] }
thiserror = "=1.0.69"
tokio = { version = "=1.54.1", features = ["rt", "time", "fs", "io-util", "sync"] }
tokio-stream = { version = "=0.1.19", features = ["fs"] }
