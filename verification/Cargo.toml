[package]
name = "todo_tui"
version = "0.1.0"
edition = "2021"
publish = false

[dependencies]
chrono = "*"
color-eyre = "*"
crossterm = "*"
ratatui = "*"
ratatui-textarea = "*"
rusqlite = { version = "*", features = ["bundled", "chrono"] }
time = "*"
tracing = "*"
