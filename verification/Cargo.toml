[package]
name = "nes"
version = "0.1.0"
edition = "2021"

[dependencies]
lazy_static = "1.4.0"
sdl2 = "0.35.2"
