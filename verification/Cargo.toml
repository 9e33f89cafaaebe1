[package]
name = "axum_util"
version = "0.1.0"
edition = "2021"
publish = false

[dependencies]
anyhow = "1"
async-trait = "0.1"
axum = "0.6"
chrono = "0.4"
futures = "0.3"
hmac = "0.12"
http = "0.2"
http-body = "0.4"
hyper = { version = "0.14", features = ["server", "tcp", "http1", "http2"] }
indexmap = "2"
jwt = "0.16"
log = "0.4"
openid = { version = "0.12", default-features = false, features = ["rustls"] }
pin-project = "1"
prometheus = { version = "0.13", default-features = false }
rustls = "0.21"
serde = { version = "1", features = ["derive"] }
sha2 = "0.10"
tokio = { version = "1", features = ["sync", "rt", "rt-multi-thread", "time", "net", "macros"] }
tokio-rustls = "0.24"
tokio-stream = "0.1"
tower-layer = "0.3"
tower-service = "0.3"
url = { version = "2", features = ["serde"] }
