[package]
name = "apalis_redis"
version = "0.1.0"
edition = "2021"
publish = false

[dependencies]
apalis-core = { version = "=1.0.0", features = ["ulid", "serde", "task-context"] }
apalis-codec = "=1.0.0"
futures = "=0.3.34"
redis = { version = "=1.8.1", features = ["aio", "tokio-comp", "connection-manager"] }
serde = { version = "=1.0.229", features = ["derive"] }
serde_json = "=1.0.154"
thiserror = "=2.0.21"
tracing = "=0.1.44"
ulid = "=3.0.0"
