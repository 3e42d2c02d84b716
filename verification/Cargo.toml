[package]
name = "image_transfer"
version = "0.1.0"
edition = "2021"
publish = false

[dependencies]
futures = "=0.3.34"
image = "=0.24.9"
eframe = { version = "=0.22.0", default-features = false, features = ["default_fonts", "glow"] }
arboard = "=3.7.0"
rfd = "0.14"
