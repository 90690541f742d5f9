[package]
name = "sentinel2_indices"
version = "0.1.0"
edition = "2021"
publish = false

[dependencies]
regex = "1"
image = { version = "*", default-features = false, features = ["png", "jpeg", "tiff"] }
jpeg2k = "*"
