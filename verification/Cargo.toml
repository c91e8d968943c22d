[package]
name = "gpu_dispatch"
version = "0.1.0"
edition = "2021"
publish = false

[dependencies]
wgpu = { version = "=30.0.1", features = ["noop"] }
pollster = "=1.0.1"
log = "=0.4.34"
env_logger = "=0.11.11"
