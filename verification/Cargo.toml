[package]
name = "ld42"
version = "0.1.0"
edition = "2021"
publish = false

[dependencies]
noise = "*"
rand = "*"
ron = "*"
serde = { version = "*", features = ["derive"] }
