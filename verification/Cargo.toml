[package]
name = "rig_montreal_lancedb"
version = "0.1.0"
edition = "2021"
publish = false

[dependencies]
lambda_runtime = "*"
rig-core = "*"
serde = { version = "*", features = ["derive"] }
tokio = { version = "*", features = ["macros", "rt-multi-thread"] }
tracing-subscriber = "*"
