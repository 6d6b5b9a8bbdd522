[package]
name = "redis_core"
version = "0.1.0"
edition = "2021"
publish = false

[dependencies]
chrono = "*"
redis = { version = "*", features = ["tokio-comp", "cluster-async"] }
serde = { version = "*", features = ["derive"] }
serde_json = "*"
ssh_jumper = "*"
thiserror = "*"
tokio = { version = "*", features = ["full"] }
