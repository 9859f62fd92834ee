[package]
name = "capture_core"
version = "0.1.0"
edition = "2021"
publish = false

[dependencies]
anyhow = "=1.0.104"
ashpd = { version = "=0.13.13", features = ["input_capture"] }
env_logger = "=0.11.11"
futures = "=0.3.34"
log = "=0.4.34"
reis = { version = "=0.7.1", features = ["tokio"] }
tokio = { version = "=1.53.2", features = ["full"] }
