[package]
name = "checker_scene"
version = "0.1.0"
edition = "2021"
publish = false

[dependencies]
bevy = { version = "0.9", default-features = false, features = ["bevy_asset", "bevy_winit", "bevy_core_pipeline", "bevy_pbr", "bevy_render", "png", "x11", "filesystem_watcher"] }
bevy-inspector-egui = { version = "0.14", default-features = false }
