[package]
name = "sand_simulation"
version = "0.1.0"
edition = "2021"
publish = false

[dependencies]
bytemuck = { version = "=1.25.2", features = ["derive"] }
glam = { version = "=0.30.10", features = ["bytemuck"] }
clap = { version = "=4.6.7", features = ["derive"] }
strum = { version = "=0.27.2", features = ["derive"] }
futures = "=0.3.34"
ouroboros = "=0.18.5"
wgpu = { version = "=25.0.2", features = ["spirv"] }
winit = { version = "=0.30.13", default-features = false, features = ["x11", "rwh_06"] }
