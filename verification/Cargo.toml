[package]
name = "clircle"
version = "0.1.0"
edition = "2021"
publish = false

[dependencies]
nix = "=0.26.4"

[dev-dependencies]
tempfile = "=3.27.0"
