[package]
name = "omega_cache"
version = "0.1.0"
edition = "2021"
publish = false

[dependencies]
bincode = { version = "2", default-features = false, features = ["std"] }
r2d2 = "0.8"
redis = { version = "*", features = ["r2d2"] }
sled = { version = "0.34", features = ["compression"] }
