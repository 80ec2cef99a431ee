[package]
name = "trading_bot_rust"
version = "0.1.0"
edition = "2021"
publish = false

[dependencies]
anyhow = "1"
chrono = { version = "0.4", features = ["serde"] }
futures-util = { version = "0.3", features = ["sink"] }
http = "1"
lazy_static = "1"
log = "0.4"
native-tls = "0.2"
prometheus = { version = "0.13", default-features = false }
redis = { version = "0.25", features = ["tokio-comp", "aio"] }
reqwest = { version = "0.12", features = ["json"] }
rustls = "0.23"
serde = { version = "1", features = ["derive"] }
serde_json = "1"
tokio = { version = "1", features = ["full"] }
tokio-tungstenite = { version = "0.26", features = ["native-tls"] }
tonic = "0.12"
urlencoding = "2"
warp = "0.3"
