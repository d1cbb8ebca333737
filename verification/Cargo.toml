[package]
name = "i8080"
version = "0.1.0"
edition = "2021"
publish = false

[dependencies]
sdl2 = { version = "0.34", features = ["mixer"] }
gl = "0.14"
