[package]
name = "deep_delta_learn"
version = "0.1.0"
edition = "2021"
publish = false

[dependencies]
burn = { version = "0.18", default-features = false, features = ["std", "ndarray"] }
anyhow = "1"
env_logger = "0.11"
