[package]
name = "benilla"
version = "0.1.0"
edition = "2021"
publish = false

[dependencies]
bevy = { version = "0.18", default-features = false }
crossbeam-channel = "0.5"
