[package]
name = "apx"
version = "0.1.0"
edition = "2021"
publish = false

[dependencies]
axum = { version = "=0.8.9", features = ["ws"] }
bytes = "=1.12.1"
chrono = "=0.4.45"
clap = { version = "=4.6.7", features = ["derive"] }
console = "=0.16.6"
futures-util = "=0.3.34"
hex = "=0.4.3"
http-body-util = "=0.1.5"
hyper = { version = "=1.12.0", features = ["server", "http1", "http2"] }
hyper-tungstenite = "=0.30.0"
hyper-util = { version = "=0.1.21", features = ["tokio", "server", "server-auto"] }
notify = "=8.2.1"
opentelemetry = "=0.31.0"
pyo3 = { version = "=0.30.1", features = ["abi3-py311"] }
rand = "=0.8.8"
reqwest = { version = "=0.12.28", default-features = false, features = ["json", "stream"] }
rmp-serde = "=1.3.1"
serde = { version = "=1.0.229", features = ["derive"] }
serde_json = "=1.0.154"
sysinfo = "=0.40.1"
tokio = { version = "=1.54.1", features = ["full"] }
tokio-postgres = "=0.7.18"
tokio-tungstenite = "=0.30.0"
toml = "=0.8.23"
tracing = "=0.1.44"
tracing-opentelemetry = "0.32"
tracing-subscriber = { version = "=0.3.23", features = ["env-filter"] }
uuid = { version = "=1.29.0", features = ["v4"] }
which = "=8.0.6"
