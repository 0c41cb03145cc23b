[package]
name = "cyber_jum"
version = "0.1.0"
edition = "2021"
publish = false

[dependencies]
agb = "*"
serde = { version = "1", default-features = false, features = ["derive"] }
