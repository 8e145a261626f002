[package]
name = "siege_of_life"
version = "0.1.0"
edition = "2021"
publish = false

[dependencies]
bevy = { version = "=0.15.3", default-features = false, features = ["bevy_asset", "bevy_core_pipeline", "bevy_render", "bevy_sprite", "bevy_state", "bevy_window"] }
serde = { version = "1", features = ["derive"] }
serde_json = "1"
directories = "5"
