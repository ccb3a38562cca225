[package]
name = "user_service"
version = "0.1.0"
edition = "2021"
publish = false

[dependencies]
axum = "=0.5.17"
deadpool-postgres = "=0.9.0"
dotenv = "=0.15.0"
hyper = "=0.14.32"
serde = { version = "=1.0.229", features = ["derive"] }
serde_json = "=1.0.154"
tokio = { version = "=1.54.1", features = ["full"] }
tokio-postgres = "=0.7.18"
tower-http = { version = "=0.3.5", features = ["fs"] }
tracing = "=0.1.44"
tracing-subscriber = "=0.3.23"
