[package]
name = "libterm"
version = "0.1.0"
edition = "2021"
publish = false

[dependencies]
regex = "1"
serde = { version = "1", features = ["derive"] }
serde_json = "1"
toml = "*"
bytemuck = { version = "1", features = ["derive"] }
log = "0.4"
env_logger = "*"
nix = { version = "*", features = ["term", "process", "fs", "ioctl"] }
pollster = "*"
fontdue = "*"
harfbuzz_rs = "*"
winit = "0.30"
wgpu = "*"
