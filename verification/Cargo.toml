[package]
name = "typing_guard_svc"
version = "0.1.0"
edition = "2021"
publish = false

[dependencies]
axum = "*"
chrono = { version = "0.4", features = ["serde"] }
config = { version = "*", default-features = false, features = ["toml"] }
governor = "*"
hex = "0.4"
hmac = "0.12"
serde = { version = "1", features = ["derive"] }
serde_json = "1"
sha2 = "0.10"
thiserror = "1"
tokio = { version = "1", features = ["full"] }
tower = { version = "*", features = ["util"] }
tower-http = { version = "*", features = ["cors", "trace"] }
tower_governor = "*"
tracing = "0.1"
tracing-subscriber = { version = "0.3", features = ["env-filter"] }
uuid = { version = "1", features = ["v4", "serde"] }
