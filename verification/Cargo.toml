[package]
name = "lark-ui"
version = "0.1.0"
edition = "2021"
publish = false

[dependencies]
anyhow = "1"
clap = { version = "4", features = ["derive"] }
crossterm = "0.27"
directories-next = "2"
ratatui = "0.27"
tui-input = "0.8"
tui-scrollview = "0.3"
