[package]
name = "biblioteca"
version = "0.1.0"
edition = "2021"
publish = false

[dependencies]
bincode = "1.3"
chrono = { version = "0.4", default-features = false, features = ["std"] }
