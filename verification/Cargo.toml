[package]
name = "replicate"
version = "0.1.0"
edition = "2021"
publish = false

[dependencies]
nix = { version = "=0.27.1", features = ["feature", "fs", "process", "user"] }
tempfile = "3"
