[package]
name = "pngopt"
version = "0.1.0"
edition = "2021"
publish = false

[dependencies]
image = { version = "*", default-features = false, features = ["png"] }
humansize = "*"
clap = { version = "*", features = ["derive"] }
walkdir = "*"
rayon = "*"
