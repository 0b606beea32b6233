[package]
name = "parlab"
version = "0.1.0"
edition = "2021"
publish = false

[dependencies]
regex = "1"
image = { version = "0.25", default-features = false, features = ["png"] }
rayon = "1"
tokio = { version = "1", features = ["full"] }
reqwest = "0.12"
crossterm = "0.28"
spirv-std = "0.9"
