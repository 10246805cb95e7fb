[package]
name = "music_cli"
version = "0.1.0"
edition = "2021"
publish = false

[dependencies]
crossterm = "*"
id3 = "*"
named_pipe = "*"
ratatui = "*"
reqwest = { version = "*", default-features = false, features = ["blocking", "json"] }
serde = { version = "*", features = ["derive"] }
serde_json = "*"
walkdir = "*"
