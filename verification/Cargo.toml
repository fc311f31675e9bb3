[package]
name = "arrakis_serial"
version = "0.1.0"
edition = "2021"
publish = false

[dependencies]
chrono = "0.4"
sysinfo = "*"
local-ip-address = "*"
tokio = { version = "1", features = ["rt-multi-thread", "macros", "time"] }
env_logger = "*"
