[package]
name = "bevy_kot"
version = "0.1.0"
edition = "2021"
publish = false

[dependencies]
async-channel = "1"
bevy = { version = "0.11", default-features = false }
crossbeam = "0.8"
