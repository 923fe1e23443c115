[package]
name = "blaulicht"
version = "0.1.0"
edition = "2021"
publish = false

[dependencies]
serialport = { version = "*", default-features = false }
crossbeam-channel = "*"
spin_sleep = "*"
