[package]
name = "themeprism"
version = "0.1.0"
edition = "2021"
publish = false

[dependencies]
serde = { version = "1", features = ["derive"] }
toml = "*"
thiserror = "*"
directories = "*"
unic-langid = "*"
fluent-templates = "*"
crossterm = "*"
ratatui = "*"
