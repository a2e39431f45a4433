[package]
name = "ephosh"
version = "0.1.0"
edition = "2021"
publish = false

[dependencies]
crossterm = "*"
is_executable = "*"
portable-pty = "*"
serde = { version = "1", features = ["derive"] }
serde_json = "1"
termion = "*"
