[package]
name = "blurlock"
version = "0.1.0"
edition = "2021"
publish = false

[dependencies]
clap = { version = "*", features = ["derive"] }
config = "*"
i3ipc-jl = "*"
log = "*"
pretty_env_logger = "*"
rayon = "*"
tempfile = "*"
