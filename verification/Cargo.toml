[package]
name = "voice_relay"
version = "0.1.0"
edition = "2021"
publish = false

[dependencies]
lru = "*"
rustc_apfloat = "*"
tokio = { version = "*", features = ["rt", "sync", "time", "macros"] }
