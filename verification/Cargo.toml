[package]
name = "proxy_call"
version = "0.1.0"
edition = "2021"
publish = false

[dependencies]
anyhow = "=1.0.104"
async-trait = "=0.1.92"
audio-codec = "=0.4.13"
chrono = "=0.4.45"
dashmap = "6"
futures = "=0.3.34"
glob = "=0.3.4"
rand = "=0.10.3"
rsipstack = "=0.7.14"
rustrtc = "=0.4.20"
serde = { version = "=1.0.229", features = ["derive"] }
serde_json = "=1.0.154"
tokio = { version = "=1.54.1", features = ["full"] }
tokio-util = "=0.7.20"
toml = "=1.1.8"
urlencoding = "=2.1.3"
uuid = { version = "=1.29.0", features = ["v4"] }
