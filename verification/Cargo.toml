[package]
name = "muilib"
version = "0.1.0"
edition = "2021"
publish = false

[dependencies]
bumpalo = { version = "=3.20.3", features = ["collections"] }
cgmath = "=0.18.0"
log = "=0.4.34"
serde = { version = "1", features = ["derive"] }
winit = "=0.30.13"
