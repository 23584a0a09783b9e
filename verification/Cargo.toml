[package]
name = "game_boyish"
version = "0.1.0"
edition = "2021"
publish = false

[dependencies]
evdev = "0.12"
minifb = "0.25"
serde = { version = "1", features = ["derive"] }
serde_json = "1"
