[package]
name = "quick_action_hud"
version = "0.1.0"
edition = "2021"
publish = false

[dependencies]
serde = { version = "=1.0.229", features = ["derive"] }
ron = "=0.12.3"
bevy = { version = "=0.19.1", default-features = false, features = ["std", "keyboard", "gamepad", "mouse"] }
