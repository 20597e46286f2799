[package]
name = "hyperdeck_monitor"
version = "0.1.0"
edition = "2021"
publish = false

[dependencies]
uuid = { version = "=1.29.0", features = ["v4"] }
serde = { version = "=1.0.229", features = ["derive"] }
serde_json = "=1.0.154"
tokio = { version = "=1.54.1", features = ["full"] }
axum = { version = "=0.6.20", features = ["ws", "macros"] }
tower = "=0.4.13"
tower-http = { version = "=0.4.4", features = ["trace", "timeout", "cors", "compression-gzip", "map-response-body", "sensitive-headers", "set-header", "util"] }
tracing = "=0.1.44"
tracing-subscriber = { version = "=0.3.23", features = ["env-filter"] }
color-eyre = "=0.6.5"
futures = "=0.3.34"
futures-util = { version = "=0.3.34", features = ["sink"] }
tokio-stream = { version = "=0.1.19", features = ["sync"] }
tokio-tungstenite = "=0.20.1"
tokio-util = { version = "=0.7.20", features = ["codec"] }
url = "=2.5.8"
egui = "0.27"
ewebsock = "0.5"
wasm-timer = "0.2"
