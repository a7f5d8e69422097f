[package]
name = "clockwatch"
version = "0.1.0"
edition = "2021"
publish = false

[dependencies]
ratatui = "0.29"
color-eyre = "0.6"
