[package]
name = "point_cloud"
version = "0.1.0"
edition = "2021"
publish = false

[dependencies]
fastrand = "1"
bevy = { version = "0.8", default-features = false, features = ["bevy_render"] }
bevy-inspector-egui = { version = "0.12", default-features = false }
