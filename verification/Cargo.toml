[package]
name = "papyrus_tui"
version = "0.1.0"
edition = "2021"
publish = false

[dependencies]
uuid = { version = "=1.29.0", features = ["v4", "v5", "v7"] }
ratatui = "=0.29.0"
crossterm = "=0.28.1"
thiserror = "=2.0.21"
