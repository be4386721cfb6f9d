[package]
name = "teki"
version = "0.1.0"
edition = "2021"
publish = false

[dependencies]
vector2d = "2"
clap = "2"
sdl2 = { version = "0.34", features = ["image", "mixer"] }
legion = "0.4"
