[package]
name = "payments_engine"
version = "0.1.0"
edition = "2021"
publish = false

[dependencies]
csv-async = "*"
env_logger = "*"
futures = "*"
log = "*"
rust_decimal = "*"
serde = { version = "*", features = ["derive"] }
tokio = { version = "*", features = ["rt-multi-thread", "macros", "fs"] }
tokio-util = { version = "*", features = ["compat"] }
