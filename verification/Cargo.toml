[package]
name = "plannotator-tui"
version = "0.1.0"
edition = "2021"
publish = false

[dependencies]
anyhow = "1"
ratatui = "0.29"
unicode-width = "0.2"
