[package]
name = "replayd"
version = "0.1.0"
edition = "2021"
publish = false

[dependencies]
sysinfo = "*"
users = "*"
chrono = "*"
tokio = { version = "*", features = ["full"] }
serde = { version = "*", features = ["derive"] }
