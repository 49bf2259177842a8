[package]
name = "equinix_otel_tools"
version = "0.1.0"
edition = "2021"
publish = false

[dependencies]
init-tracing-opentelemetry = { version = "=0.30.1", features = ["tracing_subscriber_ext"] }
opentelemetry = "0.30"
traceparent = "=0.0.3"
tracing = "=0.1.44"
tracing-subscriber = "=0.3.23"

[dev-dependencies]
opentelemetry_sdk = { version = "0.30", features = ["testing"] }
