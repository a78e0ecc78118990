[package]
name = "gas_estimator"
version = "0.1.0"
edition = "2021"
publish = false

[dependencies]
axum = "*"
log = "*"
reqwest = { version = "*", default-features = false }
serde = { version = "*", features = ["derive"] }
serde_json = "*"
thiserror = "*"
tokio = { version = "*", features = ["rt-multi-thread", "macros", "net"] }
tower_governor = "*"
tracing-subscriber = "*"
