[package]
name = "fifo_writer"
version = "0.1.0"
edition = "2021"
publish = false

[dependencies]
anyhow = "*"
clap = { version = "*", features = ["derive"] }
core_affinity = "*"
nix = { version = "*", features = ["fs"] }
