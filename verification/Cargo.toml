[package]
name = "study_server"
version = "0.1.0"
edition = "2021"
publish = false

[dependencies]
bytes = "1"
uuid = { version = "1", features = ["v4"] }
tokio = { version = "1", features = ["full"] }
axum = { version = "0.8", features = ["ws"] }
futures = "0.3"
redis = { version = "*", features = ["tokio-comp"] }
thiserror = "2"
