[package]
name = "devtools_server"
version = "0.1.0"
edition = "2021"
publish = false

[dependencies]
tokio = { version = "1", features = ["sync", "rt", "rt-multi-thread"] }
futures = "0.3"
tracing = "0.1"
tracing-core = "0.1"
tonic = "0.12"
tonic-health = "0.12"
tonic-web = "0.12"
tower-http = { version = "0.6", features = ["cors"] }
http = "1"
