[package]
name = "xtswpr"
version = "0.1.0"
edition = "2021"
publish = false

[dependencies]
chrono = "0.4"
crossterm = "0.27"
directories = "5"
rand = "0.8"
ratatui = { version = "0.23", default-features = false, features = ["crossterm"] }
serde = { version = "1", features = ["derive"] }
sys-locale = "0.3"
term_color_support = "*"
toml = "0.8"
unicode-width = "0.1"
