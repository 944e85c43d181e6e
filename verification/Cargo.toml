[package]
name = "scene_commands"
version = "0.1.0"
edition = "2021"
publish = false

[dependencies]
uuid = { version = "=1.27.0", features = ["v4"] }
serde_json = { version = "=1.0.151", features = ["preserve_order"] }
