[package]
name = "sandman"
version = "0.1.0"
edition = "2021"

[dependencies]
home = "*"
serde = { version = "1", features = ["derive"] }
structopt = "0.3"
toml = "*"
users = "*"
