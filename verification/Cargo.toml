[package]
name = "sdf_game"
version = "0.1.0"
edition = "2021"
publish = false

[dependencies]
fastrand = "1.9"
bytemuck = { version = "1.13", features = ["derive"] }
cgmath = "0.18"
egui = "0.21"
eframe = { version = "0.21", default-features = false, features = ["wgpu", "default_fonts"] }
wgpu = "0.15"
winit = "0.28"
