[package]
name = "uplift_desk"
version = "0.1.0"
edition = "2021"
publish = false

[dependencies]
btleplug = "*"
tokio = { version = "*", features = ["full"] }
futures = "*"
anyhow = "*"
clap = { version = "*", features = ["derive"] }
log = "*"
env_logger = "*"
