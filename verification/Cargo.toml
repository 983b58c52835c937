[package]
name = "sshs"
version = "0.1.0"
edition = "2021"
publish = false

[dependencies]
regex = "1"
shlex = "1"
handlebars = "6"
unicode-width = "0.2.0"
fuzzy-matcher = "0.3"
shellexpand = "3"
dirs = "*"
chrono = "0.4"
anyhow = "1"
crossterm = "0.28"
ratatui = "0.29"
tui-input = "0.11"
