[package]
name = "fregate"
version = "0.1.0"
edition = "2021"
publish = false

[dependencies]
axum = "0.6"
hyper = { version = "0.14", features = ["full"] }
tokio = { version = "1", features = ["rt-multi-thread", "macros", "signal", "time"] }
tonic = "0.8"
tower = { version = "0.4", features = ["steer", "make", "util"] }
serde = { version = "1", features = ["derive"] }
serde_json = "1"
metrics = "0.20"
metrics-exporter-prometheus = "0.11"
