[package]
name = "stormbird"
version = "0.1.0"
edition = "2021"
publish = false

[dependencies]
stormath = "*"
serde = { version = "*", features = ["derive"] }
serde_json = "*"
rayon = "*"
log = "*"
ndarray = "*"
