[package]
name = "composer_core"
version = "0.1.0"
edition = "2021"
publish = false

[dependencies]
serde = { version = "1", features = ["derive"] }
serde_json = "1"
rodio = "0.17"
walkdir = "2"
elevated-command = "*"
