[package]
name = "bevy_ui_style_builder"
version = "0.1.0"
edition = "2021"
publish = false

[dependencies]
bevy = { version = "=0.10.1", default-features = false, features = ["bevy_render", "bevy_ui"] }
thiserror = "=1.0.69"
