[package]
name = "takeoff"
version = "0.1.0"
edition = "2021"
publish = false

[dependencies]
axum = "*"
axum_session = "*"
chrono = "*"
serde = { version = "*", features = ["derive"] }
thiserror = "*"
tokio = { version = "*", features = ["macros", "rt-multi-thread", "net"] }
uuid = { version = "*", features = ["v4", "serde"] }
validator = "*"
