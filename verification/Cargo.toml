[package]
name = "rust_tetris"
version = "0.1.0"
edition = "2021"
publish = false

[dependencies]
rand = "=0.8.8"
chrono = { version = "=0.4.45", features = ["serde"] }
serde = { version = "=1.0.229", features = ["derive"] }
serde_json = "=1.0.154"
macroquad = { version = "=0.4.16", features = ["audio"] }
log = "=0.4.35"
env_logger = "=0.10.2"
