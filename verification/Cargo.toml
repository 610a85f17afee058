[package]
name = "flcq"
version = "0.1.0"
edition = "2021"
publish = false

[dependencies]
serialport = { version = "=3.3.0", default-features = false }
conrod = "=0.61.1"
dirs = "=1.0.5"
