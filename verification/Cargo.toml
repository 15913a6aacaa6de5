[package]
name = "lambda_telemetry"
version = "0.1.0"
edition = "2021"
publish = false

[dependencies]
serde_json = "*"
serde = { version = "*", features = ["derive"] }
chrono = "*"
tokio = { version = "*", features = ["full"] }
reqwest = "*"
futures = "*"
strum = "*"
strum_macros = "*"
sea-orm = { version = "*", features = ["sqlx-postgres", "runtime-tokio-rustls"] }
