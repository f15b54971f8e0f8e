[package]
name = "clap_validator"
version = "0.1.0"
edition = "2021"
publish = false

[dependencies]
anyhow = "1"
basic-toml = "*"
clap = { version = "4", features = ["derive"] }
clap-sys = "*"
crossbeam = "*"
crossbeam-utils = "*"
either = "1"
libloading = "*"
log = "0.4"
parking_lot = "*"
rand = "*"
rustc-hash = "*"
serde = { version = "1", features = ["derive"] }
serde_json = "1"
strum = { version = "*", features = ["derive"] }
tempfile = "3"
time = "0.3"
wait-timeout = "*"
walkdir = "2"
yansi = "*"
