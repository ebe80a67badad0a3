[package]
name = "translit_tui"
version = "0.1.0"
edition = "2021"
publish = false

[dependencies]
translit = "*"
arboard = "*"
clap = { version = "*", features = ["derive"] }
color-eyre = "*"
ratatui = "*"
