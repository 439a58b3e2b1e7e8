[package]
name = "sr"
version = "0.1.0"
edition = "2021"
publish = false

[dependencies]
chrono = "=0.4.45"
clap = { version = "=4.6.7", features = ["derive"] }
mio = { version = "=0.8.11", features = ["os-poll", "os-ext"] }
nix = "=0.26.4"
