[package]
name = "ptits_gilets"
version = "0.1.0"
edition = "2021"
publish = false

[dependencies]
anyhow = "1"
arboard = "3"
crossterm = "0.28"
dirs = "5"
log = "0.4"
ratatui = "0.28"
reqwest = { version = "0.12", default-features = false, features = ["blocking", "json"] }
serde = { version = "1", features = ["derive"] }
serde_json = "1"
simplelog = "0.12"
webbrowser = "1"
