[package]
name = "save_point"
version = "0.1.0"
edition = "2021"
publish = false

[dependencies]
crossterm = "0.27"
dirs = "5"
ratatui = "0.26"
serde_json = "1"
