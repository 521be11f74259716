[package]
name = "fcp"
version = "0.1.0"
edition = "2021"
publish = false

[dependencies]
rayon = "1"
nix = { version = "0.29", features = ["fs"] }
