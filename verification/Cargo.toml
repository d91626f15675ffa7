[package]
name = "hemtt"
version = "0.1.0"
edition = "2021"
publish = false

[dependencies]
clap = { version = "4", features = ["derive"] }
glob = "0.3"
peekmore = "1"
rayon = "1"
serde = { version = "1", features = ["derive"] }
toml = "*"
vfs = "*"
