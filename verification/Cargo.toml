[package]
name = "ornament_host"
version = "0.1.0"
edition = "2021"
publish = false

[dependencies]
anyhow = "*"
argparse = "*"
axum = "*"
btleplug = "*"
env_logger = "*"
log = "*"
serde = { version = "*", features = ["derive"] }
tokio = { version = "*", features = ["rt-multi-thread", "macros", "time", "net"] }
uuid = "*"
