[package]
name = "cm"
version = "0.1.0"
edition = "2021"
publish = false

[dependencies]
regex = "*"
shell-quote = "*"
clap = { version = "*", features = ["derive"] }
dirs = "*"
serde = { version = "*", features = ["derive"] }
serde_json = "*"
