[package]
name = "ball_game"
version = "0.1.0"
edition = "2021"
publish = false

[dependencies]
rand = "=0.8.5"
bevy = { version = "=0.13.2", default-features = false }
