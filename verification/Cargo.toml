[package]
name = "m_game"
version = "0.1.0"
edition = "2021"
publish = false

[dependencies]
noise = "0.9"
once_cell = "1"
serde = { version = "1", features = ["derive"] }
serde_json = "1"
chrono = "0.4"
instant = "0.1"
