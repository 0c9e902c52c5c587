[package]
name = "pong"
version = "0.1.0"
edition = "2021"
publish = false

[dependencies]
sdl2 = { version = "*", features = ["image", "mixer", "ttf"] }
