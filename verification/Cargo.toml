[package]
name = "httpget"
version = "0.1.0"
edition = "2021"
publish = false

[dependencies]
clap = "4"
reqwest = { version = "0.11", features = ["blocking"] }
tui-tools = "*"
