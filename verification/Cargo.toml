[package]
name = "thock"
version = "0.1.0"
edition = "2021"
publish = false

[dependencies]
core-foundation = "0.10"
core-graphics = "0.24"
rodio = "0.19"
rustyline = { version = "14", features = ["derive"] }
serde = { version = "1", features = ["derive"] }
serde_json = "1"
