[package]
name = "srs_exporter"
version = "1.1.0"
edition = "2021"
publish = false

[dependencies]
anyhow = "=1.0.104"
axum = "=0.6.20"
json = "=0.12.4"
percent-encoding = "=2.3.2"
prometheus = { version = "=0.13.4", default-features = false }
reqwest = { version = "=0.11.27", default-features = false, features = ["json"] }
serde = { version = "=1.0.229", features = ["derive"] }
serde_derive = "=1.0.229"
serde_json = "=1.0.154"
tokio = { version = "=1.54.1", features = ["full"] }
toml = "=0.5.11"
tracing = "=0.1.44"
tracing-subscriber = "=0.3.23"
