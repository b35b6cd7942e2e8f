[package]
name = "asciihou"
version = "0.1.0"
edition = "2021"
publish = false

[dependencies]
bevy = { version = "0.15", default-features = false }
bevy_rapier2d = { version = "0.28", default-features = false, features = ["dim2"] }
rand = "0.8"
ron = "0.8"
serde = { version = "1", features = ["derive"] }
thiserror = "2"
