[package]
name = "gbemu"
version = "0.1.0"
edition = "2021"
publish = false

[dependencies]
chrono = "*"
sdl2 = "*"

[dev-dependencies]
rand = "0.8"
