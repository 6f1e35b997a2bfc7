[package]
name = "quicktick_tty"
version = "0.1.0"
edition = "2021"
publish = false

[dependencies]
crossterm = "0.27"
tui-input = "0.8"
uuid = { version = "1", features = ["v4"] }
serde = { version = "1", features = ["derive"] }
serde_json = "1"
reqwest = { version = "0.11", default-features = false, features = ["cookies", "rustls-tls"] }
tokio = { version = "1", features = ["full"] }
dirs = "5"
ratatui = "0.24"
