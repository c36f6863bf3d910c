[package]
name = "particle_trails"
version = "0.1.0"
edition = "2021"
publish = false

[dependencies]
anyhow = "1.0"
bitflags = "1.2"
bytemuck = { version = "1.4", features = ["derive"] }
cgmath = "0.18"
chrono = "0.4"
env_logger = "0.8"
futures = "0.3"
image = { version = "0.23", default-features = false, features = ["png"] }
rand = "0.8"
wgpu = "0.8"
winit = "0.24"
