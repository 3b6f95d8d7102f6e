[package]
name = "lattice"
version = "0.1.0"
edition = "2021"
publish = false

[dependencies]
regex = "=1.13.1"
image = { version = "=0.25.10", default-features = false, features = ["png", "jpeg", "webp"] }
serde = { version = "=1.0.229", features = ["derive"] }
log = "=0.4.35"
pathdiff = "0.2"
