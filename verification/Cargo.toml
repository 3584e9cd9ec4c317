[package]
name = "axum_otel_tempo"
version = "0.1.0"
edition = "2021"
publish = false

[dependencies]
axum = "0.6"
base64 = "0.21"
dotenvy = "0.15"
opentelemetry = { version = "0.19", features = ["rt-tokio"] }
opentelemetry-otlp = { version = "0.12", default-features = false, features = ["trace", "http-proto", "reqwest-client"] }
reqwest = { version = "0.11", default-features = false }
tokio = { version = "1", features = ["full"] }
tower-http = { version = "0.4", features = ["trace"] }
tracing = "0.1"
tracing-opentelemetry = "0.19"
tracing-subscriber = { version = "0.3", features = ["env-filter"] }
