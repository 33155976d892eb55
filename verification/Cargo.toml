[package]
name = "worm_core"
version = "0.1.0"
edition = "2021"
publish = false

[dependencies]
bevy = { version = "0.9", default-features = false, features = ["bevy_asset", "bevy_winit", "render", "x11"] }
bevy_egui = { version = "0.19", default-features = false }
bevy_pancam = "0.7"
bevy_prototype_debug_lines = "0.9"
