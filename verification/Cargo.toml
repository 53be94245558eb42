[package]
name = "murray_cli"
version = "0.1.0"
edition = "2021"
publish = false

[dependencies]
murray-rs = "*"
serde_json = "*"
clap = { version = "*", features = ["derive"] }
