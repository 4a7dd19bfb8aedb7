[package]
name = "lightning"
version = "0.1.0"
edition = "2021"
publish = false

[dependencies]
ratatui = "=0.29.0"
rfd = { version = "=0.17.2", default-features = false, features = ["xdg-portal"] }
tui-textarea = "=0.7.0"
