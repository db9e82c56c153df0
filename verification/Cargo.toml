[package]
name = "buj"
version = "0.1.0"
edition = "2021"
publish = false

[dependencies]
crossterm = "*"
futures = "*"
portable-pty = "*"
ratatui = "*"
rustix = { version = "*", features = ["process", "termios"] }
shellish_parse = "*"
thiserror = "*"
tokio = { version = "*", features = ["full"] }
vt100 = "*"
