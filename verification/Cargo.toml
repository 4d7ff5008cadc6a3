[package]
name = "gpu_bootstrap"
version = "0.1.0"
edition = "2021"
publish = false

[dependencies]
env_logger = "0.8"
log = "0.4"
vulkano = "0.22"
vulkano-win = "0.22"
winit = "0.24"
