[package]
name = "chatty"
version = "0.1.0"
edition = "2021"
publish = false

[dependencies]
chrono = { version = "0.4", features = ["serde"] }
crossterm = "0.25"
log = "0.4"
rmp-serde = "1"
serde = { version = "1", features = ["derive"] }
serde_json = "1"
simplelog = "0.12"
tui = "0.19"
tui-textarea = "0.2"
