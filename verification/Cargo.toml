[package]
name = "daedalus"
version = "0.1.0"
edition = "2021"
publish = false

[dependencies]
avian3d = { version = "=0.7.0", default-features = false, features = ["3d", "parry-f32", "xpbd_joints"] }
bevy = { version = "=0.19.1", default-features = false, features = ["std", "bevy_log", "gamepad", "keyboard", "mouse"] }
crossbeam-channel = "=0.5.17"
notify = "=8.2.1"
serde = { version = "=1.0.229", features = ["derive"] }
toml = "=0.9.12"
