[package]
name = "flowgate"
version = "0.1.0"
edition = "2021"
publish = false

[dependencies]
metrics = "*"
metrics-exporter-prometheus = { version = "*", default-features = false, features = ["http-listener"] }
async-nats = "*"
bytes = "1"
tokio = { version = "1", features = ["full"] }
futures = "0.3"
serde = { version = "1", features = ["derive"] }
serde_json = { version = "1", features = ["raw_value"] }
clap = { version = "4", features = ["derive", "env"] }
tracing = "0.1"
tracing-subscriber = { version = "0.3", features = ["env-filter", "json"] }
rand = "0.9"
rand_distr = "0.5"
uuid = { version = "1", features = ["v4"] }
axum = { version = "0.8", features = ["ws"] }
tower-http = { version = "0.6", features = ["cors", "fs"] }
reqwest = { version = "0.12", default-features = false }
