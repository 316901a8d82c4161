[package]
name = "awrit_native"
version = "0.1.0"
edition = "2021"
publish = false

[dependencies]
parking_lot = "0.12"
rustix = { version = "0.38", features = ["std", "stdio", "termios", "event"] }
napi = { version = "2", default-features = false, features = ["napi4"] }
napi-derive = "2"
