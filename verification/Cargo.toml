[package]
name = "boxwine"
version = "0.1.0"
edition = "2021"
publish = false

[dependencies]
anyhow = "1"
clap = { version = "4", features = ["derive"] }
fs_extra = "1"
serde = { version = "1", features = ["derive"] }
toml = "0.8"
ureq = "2"
