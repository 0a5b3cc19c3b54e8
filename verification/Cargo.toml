[package]
name = "rcv"
version = "0.1.0"
edition = "2021"
publish = false

[dependencies]
image = "*"
webp = "*"
rayon = "*"
indicatif = "*"
clap = { version = "*", features = ["derive"] }
anyhow = "*"
