[package]
name = "subvt"
version = "0.1.0"
edition = "2021"
publish = false

[dependencies]
hex = "=0.4.3"
parity-scale-codec = "=3.7.5"
sp-crypto-hashing = "=0.1.0"
sp-core = { version = "=43.0.0", default-features = false, features = ["serde"] }
frame-metadata = { version = "=23.0.1", features = ["legacy"] }
chrono = "=0.4.45"
regex = "=1.13.1"
serde = { version = "=1.0.229", features = ["derive"] }
serde_json = "=1.0.154"
redis = "=1.8.0"
tokio = { version = "=1.54.1", features = ["rt-multi-thread", "macros", "time", "sync"] }
anyhow = "=1.0.104"
log = "=0.4.34"
thiserror = "=1.0.69"
jsonrpsee = { version = "=0.26.1", features = ["ws-client", "server"] }
sqlx = { version = "=0.9.0", default-features = false, features = ["postgres", "runtime-tokio"] }
