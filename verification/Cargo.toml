[package]
name = "summarizer"
version = "0.1.0"
edition = "2021"
publish = false

[dependencies]
anyhow = "1"
async-openai = "=0.17.1"
axum = "=0.6.20"
lazy_static = "=1.5.1"
rust-embed = "=8.13.0"
serde = { version = "=1.0.229", features = ["derive"] }
shuttle-axum = "0.35"
shuttle-runtime = "0.35"
shuttle-secrets = "0.35"
tokio = { version = "=1.54.1", features = ["macros", "rt-multi-thread"] }
tower-http = { version = "=0.4.4", features = ["trace"] }
tracing = "=0.1.44"
tracing-subscriber = "=0.3.23"
