[package]
name = "voxel_world"
version = "0.1.0"
edition = "2021"
publish = false

[dependencies]
bevy = { version = "0.15", default-features = false, features = ["bevy_asset", "bevy_color", "bevy_core_pipeline", "bevy_pbr", "bevy_picking", "bevy_render", "bevy_state", "bevy_text", "bevy_ui", "bevy_ui_picking_backend", "bevy_window", "multi_threaded", "png"] }
bevy_utils = "0.15"
bevy_asset_loader = "0.22"
bevy-tokio-tasks = "0.15"
bincode = "1.3"
itertools = "0.14"
noise = "0.9"
rand = "0.9"
rand_chacha = "0.9"
rayon = "1"
serde = { version = "1", features = ["derive"] }
tokio = { version = "1", features = ["time"] }
