[package]
name = "notify_future"
version = "0.1.0"
edition = "2021"
publish = false

[dev-dependencies]
async-std = "1"
