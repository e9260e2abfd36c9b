[package]
name = "egui-ash-integration"
version = "0.1.0"
edition = "2021"
publish = false

[dependencies]
ash = "0.37"
bytemuck = "1"
egui = "0.20"
egui-winit = { version = "0.20", default-features = false }
winit = "0.27"
