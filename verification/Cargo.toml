[package]
name = "ndrcraft"
version = "0.1.0"
edition = "2021"
publish = false

[dependencies]
cgmath = "0.18"
env_logger = "0.10"
image = { version = "0.24", default-features = false, features = ["png"] }
log = "0.4"
pollster = "0.3"
wgpu = "0.15"
winit = "0.28"
