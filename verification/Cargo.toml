[package]
name = "agent_shell"
version = "0.1.0"
edition = "2021"
publish = false

[dependencies]
anyhow = "1"
colored = "2"
crossterm = "0.28"
heck = "0.5"
inquire = "0.7"
tokio = { version = "1", features = ["macros", "rt", "time"] }
