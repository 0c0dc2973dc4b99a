[package]
name = "seele"
version = "0.1.0"
edition = "2021"
publish = false

[dependencies]
shell-words = "1"
serde = { version = "1", features = ["derive"] }
anyhow = "1"
