[package]
name = "gpu_submission"
version = "0.1.0"
edition = "2021"
publish = false

[dependencies]
wgpu = "=0.19.4"
pollster = "=0.3.0"
oneshot = "0.1"
rand = "=0.8.8"
bytemuck = { version = "=1.25.2", features = ["derive"] }
image = "=0.24.9"
gif = "=0.13.3"
tobj = "=4.0.5"
indicatif = "=0.17.11"
