[package]
name = "sublogger"
version = "0.1.0"
edition = "2021"
publish = false

[dependencies]
ansi_term = "0.12"
chrono = "0.4"
humantime = "2"
lazy_static = "1"
log = { version = "0.4", features = ["std"] }
parse-display = "0.11"
rand = "0.9"
shutdown_hooks = "0.1"

[dev-dependencies]
thiserror = "2"
