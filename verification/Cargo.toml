[package]
name = "keeplisten"
version = "0.1.0"
edition = "2021"
publish = false

[dependencies]
serde_json = "*"
serde = { version = "*", features = ["derive"] }
toml = "*"
nix = { version = "*", features = ["signal"] }
ratatui = "*"
crossterm = "*"
