[package]
name = "slam_viewer"
version = "0.1.0"
edition = "2021"
publish = false

[dependencies]
bytemuck = "1"
cv-core = "*"
futures = "0.3"
nalgebra = "0.21"
num = "0.2"
slam-cv = "*"
wgpu = "0.5"
winit = "0.22"
