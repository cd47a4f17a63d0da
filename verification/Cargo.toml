[package]
name = "teloxide_listener"
version = "0.1.0"
edition = "2021"
rust-version = "1.95"
publish = false

[dependencies]
url = "=2.5.8"
tokio = { version = "=1.54.1", features = ["sync", "rt", "macros"] }
tokio-stream = "=0.1.19"
tokio-util = { version = "=0.6.10", features = ["codec"] }
futures-core = "=0.3.34"
axum = "=0.5.17"
teloxide = { version = "=0.7.3", default-features = false }
takecell = "=0.1.1"
tracing = "=0.1.44"
