[package]
name = "event-sorcery"
version = "0.1.0"
edition = "2021"
publish = false

[dependencies]
apalis-core = "=1.0.0"
async-trait = "=0.1.92"
chrono = "=0.4.45"
ciborium = "=0.2.2"
cqrs-es = "=0.5.0"
futures-util = "=0.3.34"
serde = { version = "=1.0.229", features = ["derive"] }
serde_json = "=1.0.154"
sqlx = { version = "=0.9.0", default-features = false, features = ["sqlite", "runtime-tokio", "migrate"] }
thiserror = "=2.0.21"
tokio = { version = "=1.54.1", features = ["full"] }
tokio-util = "=0.7.20"
tower = { version = "=0.5.3", features = ["limit", "util"] }
tower-layer = "=0.3.3"
tower-service = "=0.3.3"
tracing = "=0.1.44"
ulid = { version = "=1.2.1", features = ["serde"] }
