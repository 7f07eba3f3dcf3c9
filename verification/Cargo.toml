[package]
name = "ieql"
version = "0.1.0"
edition = "2021"
publish = false

[dependencies]
regex = "1"
url = "2"
htmlescape = "0.3"
serde = { version = "1", features = ["derive"] }
ron = "0.8"
clap = "2"
log = "0.4"
simplelog = "0.12"
walkdir = "2"
rand = "0.8"
