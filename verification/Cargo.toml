[package]
name = "round_timer"
version = "0.1.0"
edition = "2021"
publish = false

[dependencies]
rodio = { version = "=0.19.0", default-features = false }
