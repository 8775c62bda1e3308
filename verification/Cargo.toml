[package]
name = "shownotes"
version = "0.1.0"
edition = "2021"
publish = false

[dependencies]
fuzzy-matcher = "0.3"
ratatui = "*"
crossterm = "*"
