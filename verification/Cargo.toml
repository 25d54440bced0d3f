[package]
name = "gkg_billing"
version = "0.1.0"
edition = "2021"
publish = false

[dependencies]
opentelemetry = "0.31"
serde = { version = "1", features = ["derive"] }
serde_json = "1"
tracing = "0.1"
