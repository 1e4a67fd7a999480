[package]
name = "fix_gateway"
version = "0.1.0"
edition = "2021"
publish = false

[dependencies]
chrono = { version = "*", default-features = false, features = ["clock", "std"] }
serde = { version = "*", features = ["derive"] }
config = { version = "*", default-features = false, features = ["yaml"] }
tokio = { version = "*", features = ["rt-multi-thread", "sync", "time", "macros"] }
log = "*"
env_logger = "*"
quickfix = "*"
