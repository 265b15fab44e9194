[package]
name = "nvim_bridge"
version = "0.1.0"
edition = "2021"
publish = false

[dependencies]
anyhow = "=1.0.104"
log = "=0.4.34"
nvim-rs = { version = "=0.9.2", features = ["use_tokio"] }
rmpv = "=1.3.1"
skia-safe = { version = "=0.153.3", default-features = false }
tokio = { version = "=1.54.1", features = ["full"] }
tokio-util = { version = "=0.7.20", features = ["compat"] }
winit = "=0.30.13"
