[package]
name = "snake"
version = "0.1.0"
edition = "2021"
publish = false

[dependencies]
bevy = { version = "0.12", default-features = false }
cfg-if = "1"
rand = "0.8"
