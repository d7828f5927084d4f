[package]
name = "stack_browser"
version = "0.1.0"
edition = "2021"
publish = false

[dependencies]
html2text = "=0.17.1"
quick_cache = "=0.7.0"
reqwest = { version = "=0.13.5", default-features = false, features = ["blocking"] }
serde_json = "=1.0.151"
ratatui = "=0.30.2"
crossterm = "=0.29.0"
webbrowser = "=1.2.4"
