[package]
name = "mather_engine"
version = "0.1.0"
edition = "2021"
publish = false

[dependencies]
anyhow = "=1.0.104"
bytemuck = { version = "=1.25.2", features = ["derive"] }
env_logger = "=0.10.2"
tobj = "=3.2.5"
tokio = { version = "=1.53.2", features = ["macros", "rt"] }
wgpu = "=0.16.3"
winit = "=0.28.7"
