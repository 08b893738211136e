[package]
name = "brewdrivers"
version = "0.1.0"
edition = "2021"
publish = false

[dependencies]
async-trait = "0.1"
crc = "3"
hex = "0.4"
log = "0.4"
serde = { version = "1", features = ["derive"] }
serde_yaml = "0.9"
serialport = { version = "4", default-features = false }
thiserror = "1"
