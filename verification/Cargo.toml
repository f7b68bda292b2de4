[package]
name = "healslut"
version = "0.1.0"
edition = "2021"
publish = false

[dependencies]
bit-vec = "*"
async-std = "*"
futures = "*"
serde = { version = "*", features = ["derive"] }
toml = "*"
directories = "*"
