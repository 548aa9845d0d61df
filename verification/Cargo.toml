[package]
name = "qga"
version = "0.1.0"
edition = "2021"
publish = false

[dependencies]
chrono = "*"
libc = "*"
nix = { version = "*", features = ["fs", "hostname", "time"] }
