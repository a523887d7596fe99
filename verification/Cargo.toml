[package]
name = "upgrade_governance"
version = "0.1.0"
edition = "2021"
publish = false

[dependencies]
chrono = "*"
uuid = { version = "*", features = ["v4"] }
tokio = { version = "*", features = ["sync", "rt", "macros"] }
async-trait = "*"
serde = { version = "*", features = ["derive"] }
thiserror = "*"
tracing = "*"
