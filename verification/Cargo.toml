[package]
name = "packet_play"
version = "0.1.0"
edition = "2021"
publish = false

[dependencies]
clap = { version = "*", features = ["derive"] }
dialoguer = "*"
indicatif = "*"
env_logger = "*"
log = "*"
