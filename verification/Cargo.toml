[package]
name = "pgtask"
version = "0.1.0"
edition = "2021"
publish = false

[dependencies]
axum = "=0.8.9"
chrono = { version = "=0.4.45", features = ["serde"] }
cron = "*"
clap = { version = "=4.6.7", features = ["derive", "env"] }
futures = "=0.3.34"
html-escape = "0.2"
opentelemetry = "=0.33.1"
opentelemetry_sdk = "=0.33.1"
pyo3 = { version = "0.27", features = ["abi3-py39"] }
pyo3-async-runtimes = { version = "0.27", features = ["tokio-runtime"] }
pythonize = "0.27"
rand = "=0.9.5"
serde = { version = "=1.0.229", features = ["derive"] }
serde_json = "=1.0.154"
sqlx = { version = "=0.9.0", default-features = false, features = ["runtime-tokio", "postgres", "uuid", "chrono", "json", "macros", "migrate"] }
thiserror = "=2.0.21"
tokio = { version = "=1.54.1", features = ["full"] }
tokio-util = "=0.7.20"
tracing = "=0.1.44"
tracing-opentelemetry = "=0.34.0"
tracing-subscriber = { version = "=0.3.23", features = ["env-filter"] }
uuid = { version = "=1.29.0", features = ["v4", "v7", "serde"] }
