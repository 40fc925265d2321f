[package]
name = "doppelganger"
version = "0.1.0"
edition = "2021"
publish = false

[dependencies]
sha2 = "0.10"
hex = "0.4"
walkdir = "2"
rusqlite = { version = "*", features = ["bundled"] }
crossbeam-channel = "0.5"
rayon = "1"
clap = { version = "4", features = ["derive"] }
log = "0.4"
env_logger = "*"
