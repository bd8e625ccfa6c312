[package]
name = "yunba_rust_sdk"
version = "0.1.0"
edition = "2021"
publish = false

[dependencies]
mqtt-protocol = "*"
regex = "*"
rustc-serialize = "*"
