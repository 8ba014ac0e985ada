[package]
name = "pix_engine"
version = "0.1.0"
edition = "2021"
publish = false

[dependencies]
num-traits = "0.2"
png = "0.16"
sdl2 = { version = "0.34", features = ["gfx", "image", "ttf"] }
serde = { version = "1", features = ["derive"] }
