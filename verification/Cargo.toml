[package]
name = "rose_ui"
version = "0.1.0"
edition = "2021"
publish = false

[dependencies]
anyhow = "1"
log = "0.4"
tokio = { version = "1", default-features = false, features = ["sync"] }
crossbeam-channel = "0.5"
enum-map = "2"
bevy = { version = "0.9", default-features = false, features = ["bevy_asset", "bevy_render"] }
bevy_egui = { version = "0.18", default-features = false }
bevy_rapier3d = { version = "0.19", default-features = false, features = ["dim3"] }
