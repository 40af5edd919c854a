[package]
name = "manus_backend"
version = "0.1.0"
edition = "2021"
publish = false

[dependencies]
sha2 = "=0.10.9"
serde = { version = "=1.0.229", features = ["derive"] }
serde_json = "=1.0.154"
anyhow = "=1.0.104"
thiserror = "=1.0.69"
tokio = { version = "=1.54.1", features = ["rt-multi-thread", "macros", "time", "net"] }
tracing = "=0.1.44"
tracing-subscriber = { version = "=0.3.23", features = ["env-filter", "json"] }
axum = "=0.7.9"
tower-http = { version = "=0.5.2", features = ["cors", "trace"] }
prometheus = "=0.13.4"
dotenv = "=0.15.0"
pqcrypto-dilithium = "=0.5.0"
pqcrypto-kyber = "=0.8.1"
pqcrypto-traits = "=0.3.5"
wasmer = "=6.1.0"
