[package]
name = "bingscape"
version = "0.1.0"
edition = "2021"
publish = false

[dependencies]
serde_json = "*"
chrono = "*"
reqwest = { version = "*", default-features = false, features = ["blocking"] }
