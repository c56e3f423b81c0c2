[package]
name = "faded_rect"
version = "0.1.0"
edition = "2021"
publish = false

[dependencies]
embedded-graphics = "0.8"

[dev-dependencies]
embedded-graphics-simulator = { version = "*", default-features = false }
