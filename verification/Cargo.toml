[package]
name = "publication_api"
version = "0.1.0"
edition = "2021"
publish = false

[dependencies]
anyhow = "=1.0.104"
bytes = "=1.12.1"
reqwest = { version = "=0.12.28", default-features = false, features = ["json"] }
reqwest-middleware = "=0.4.2"
reqwest-retry = "=0.7.0"
serde = { version = "=1.0.229", features = ["derive"] }
serde_json = "=1.0.154"
thiserror = "=2.0.21"
tokio = { version = "=1.54.1", features = ["sync", "rt", "macros"] }
tracing = "=0.1.44"
tracing-subscriber = "=0.3.23"
