[package]
name = "yokai"
version = "0.1.0"
edition = "2021"
publish = false

[dependencies]
rand = "=0.8.8"
colored = "=2.2.0"
crossterm = "=0.28.1"
noise = "=0.9.0"
bevy = { version = "0.15", default-features = false, features = ["bevy_asset", "bevy_core_pipeline", "bevy_render", "bevy_sprite", "bevy_state", "bevy_text", "bevy_window"] }
