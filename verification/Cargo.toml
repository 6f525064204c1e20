[package]
name = "atari800_rs"
version = "0.1.0"
edition = "2021"
publish = false

[dependencies]
hex = "0.4"
sdl2 = "*"
