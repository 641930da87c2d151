[package]
name = "castle_clicker"
version = "0.1.0"
edition = "2021"
publish = false

[dependencies]
rand = "=0.9.5"
crossterm = "=0.29.0"
ratatui = "=0.30.2"
rust-i18n = { version = "=4.2.4", features = ["load-path"] }
serde = { version = "=1.0.229", features = ["derive"] }
toml = "=1.1.8"
