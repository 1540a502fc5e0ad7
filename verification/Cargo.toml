[package]
name = "glean_core"
version = "0.1.0"
edition = "2021"
publish = false

[dependencies]
chrono = "0.4"
flate2 = "1"
log = "0.4"
once_cell = "1"
serde_json = "1"
