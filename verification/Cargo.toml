[package]
name = "frr_agent"
version = "0.1.0"
edition = "2021"
publish = false

[dependencies]
bytes = "1"
clap = { version = "4", features = ["derive"] }
signal-hook = "0.3"
tracing = "0.1"
tracing-subscriber = "0.3"
