[package]
name = "stepflow"
version = "0.1.0"
edition = "2021"
publish = false

[dependencies]
serde = { version = "=1.0.229", features = ["derive"] }
serde_json = "=1.0.154"
chrono = { version = "=0.4.45", features = ["serde"] }
uuid = { version = "=1.29.0", features = ["v4"] }
tokio = { version = "=1.54.1", features = ["rt-multi-thread", "sync", "time", "macros", "net"] }
axum = { version = "=0.7.9", features = ["ws"] }
reqwest = { version = "=0.12.28", default-features = false, features = ["json"] }
prometheus = { version = "=0.13.4", default-features = false }
async-trait = "=0.1.92"
anyhow = "=1.0.104"
tracing = "=0.1.44"
futures = "=0.3.34"
futures-core = "=0.3.34"
tokio-stream = { version = "=0.1.19", features = ["sync"] }
tower-http = { version = "=0.5.2", features = ["cors", "trace", "compression-gzip"] }
tracing-subscriber = { version = "=0.3.23", features = ["env-filter"] }
