[package]
name = "animation_playground"
version = "0.1.0"
edition = "2021"
publish = false

[dependencies]
bevy = { version = "=0.19.1", default-features = false, features = ["bevy_animation"] }
bevy_asset_loader = { version = "0.27", default-features = false }
