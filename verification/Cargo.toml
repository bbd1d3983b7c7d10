[package]
name = "webgpu"
version = "0.1.0"
edition = "2021"
publish = false

[dependencies]
ipc-channel = "*"
serde = { version = "*", features = ["derive"] }
