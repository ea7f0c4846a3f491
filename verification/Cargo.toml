[package]
name = "systemd-doctor"
version = "0.1.0"
edition = "2021"
publish = false

[dependencies]
chrono = "0.4"
csv = "1"
log = "0.4"
log4rs = "1"
serde = { version = "1", features = ["derive"] }
sysinfo = "0.30"
toml = "0.8"
