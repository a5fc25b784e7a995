[package]
name = "mapgen"
version = "0.1.0"
edition = "2021"
publish = false

[dependencies]
image = { version = "0.25", default-features = false, features = ["png", "bmp", "gif", "jpeg"] }
agb = "0.21"
