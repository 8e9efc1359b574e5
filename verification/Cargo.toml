[package]
name = "build_o_tron"
version = "0.1.0"
edition = "2021"
publish = false

[dependencies]
async-trait = "0.1"
axum = { version = "0.6", features = ["http2"] }
axum-extra = { version = "0.7", features = ["async-read-body"] }
axum-macros = "0.3"
axum-server = { version = "0.5", features = ["tls-rustls"] }
base64 = "=0.13.1"
chrono = "=0.4.45"
clap = { version = "4", features = ["derive"] }
fastly = "*"
fastly-shared = "*"
fastly-sys = "*"
futures-util = "0.3"
hex = "=0.4.3"
hmac = "=0.12.1"
http = "0.2"
hyper = { version = "0.14", features = ["full"] }
lazy_static = "1"
lettre = { version = "0.10", default-features = false, features = ["smtp-transport", "builder", "hostname", "rustls-tls"] }
libc = "0.2"
rand = "0.8"
reqwest = { version = "0.11", default-features = false, features = ["rustls-tls", "stream"] }
rlua = "0.19"
rusqlite = { version = "0.29", features = ["bundled"] }
serde = { version = "1", features = ["derive"] }
serde_json = "=1.0.154"
sha2 = "=0.10.9"
sqlite-vfs = "*"
tokio = { version = "1", features = ["full"] }
tokio-stream = "0.1"
tracing-subscriber = "0.3"
