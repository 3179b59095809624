[package]
name = "rustify"
version = "0.1.0"
edition = "2021"
publish = false

[dependencies]
crossterm = "0.28"
glob = "0.3"
home = "0.5"
ratatui = "0.29"
rodio = "0.20"
serde = { version = "1", features = ["derive"] }
toml = "0.8"
tui = { version = "0.19", default-features = false, features = ["serde"] }
