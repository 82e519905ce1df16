[package]
name = "portunus"
version = "0.1.0"
edition = "2021"
publish = false

[dependencies]
bytes = "*"
tracing-subscriber = { version = "*", features = ["env-filter", "fmt"] }
tokio = { version = "*", features = ["full"] }
tokio-util = "*"
tokio-stream = "*"
async-stream = "*"
tonic = "*"
tonic-health = "*"
tracing = "*"
thiserror = "*"
prost = "*"
opentelemetry = "*"
opentelemetry_sdk = "*"
opentelemetry-otlp = "*"
opentelemetry-http = "*"
