[package]
name = "service_manager"
version = "0.1.0"
edition = "2021"
publish = false

[dependencies]
zbus = "*"
rayon = "*"
users = "*"
nix = { version = "*", features = ["process"] }
