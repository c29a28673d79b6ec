[package]
name = "bevy_compute_noise"
version = "0.1.0"
edition = "2021"
publish = false

[dependencies]
bevy = { version = "0.15", default-features = false, features = ["bevy_asset", "bevy_render"] }
bitflags = "2"
bytemuck = { version = "1", features = ["derive"] }
crossbeam-channel = "0.5"
rand = "0.8"
