[package]
name = "webrender"
version = "0.1.0"
edition = "2021"
publish = false

[dependencies]
euclid = "0.17"
rayon = "1"
ron = "*"
serde = { version = "1", features = ["derive"] }
serde_json = "1"
time = "0.1"
