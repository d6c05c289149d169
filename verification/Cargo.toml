[package]
name = "starsim"
version = "0.1.0"
edition = "2021"
publish = false

[dependencies]
rand = "0.8"
glam = { version = "0.27", default-features = false, features = ["std"] }
winit = { version = "0.29", default-features = false, features = ["x11"] }
bytemuck = { version = "1", features = ["derive"] }
log = "0.4"
env_logger = { version = "0.11", default-features = false }
