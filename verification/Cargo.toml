[package]
name = "filecrypt"
version = "0.1.0"
edition = "2021"
publish = false

[dependencies]
aes = "0.7"
block-modes = "0.8"
rand = "0.8"
ring = "0.16"
clap = "3"
serde = { version = "1", features = ["derive"] }
thiserror = "1"
