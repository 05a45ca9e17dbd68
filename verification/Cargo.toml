[package]
name = "asteroids"
version = "0.1.0"
edition = "2021"
publish = false

[dependencies]
bevy = { version = "0.15", default-features = false, features = ["bevy_asset", "bevy_core_pipeline", "bevy_gltf", "bevy_render", "bevy_sprite", "bevy_state", "bevy_text", "bevy_window"] }
bevy_turborand = "0.10"
serde = { version = "1", features = ["derive"] }
