[package]
name = "learning_computer"
version = "0.1.0"
edition = "2021"
publish = false

[dependencies]
blake3 = "1"
chrono = { version = "0.4", features = ["serde"] }
crossterm = "0.28"
ratatui = "0.29"
serde = { version = "1", features = ["derive"] }
serde_norway = "0.9"
thiserror = "2"
