[package]
name = "distance_util"
version = "0.1.0"
edition = "2021"
publish = false

[dependencies]
thousands = "*"
serde = { version = "*", features = ["derive"] }
