[package]
name = "notes_tui"
version = "0.1.0"
edition = "2021"
publish = false

[dependencies]
rusqlite = { version = "=0.40.2", features = ["bundled"] }
ratatui = "=0.30.2"
crossterm = "=0.29.0"
color-eyre = "*"
