[package]
name = "passzip"
version = "0.1.0"
edition = "2021"
publish = false

[dependencies]
actix-web = "*"
actix-multipart = "*"
futures = "*"
serde = { version = "*", features = ["derive"] }
tempfile = "*"
