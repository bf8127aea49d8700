[package]
name = "waf_gate"
version = "0.1.0"
edition = "2021"
publish = false

[dependencies]
anyhow = "1"
axum = "0.8"
clap = { version = "4", features = ["derive"] }
crossbeam = "0.8"
futures-util = "0.3"
log = "0.4"
modsecurity = "*"
tokio = { version = "1", features = ["full"] }
tokio-stream = "0.1"
tracing-subscriber = "0.3"
