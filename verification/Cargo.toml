[package]
name = "cargo_magisk"
version = "0.1.0"
edition = "2021"
publish = false

[dependencies]
anyhow = "*"
clap = { version = "*", features = ["derive"] }
fs_extra = "*"
serde = { version = "*", features = ["derive"] }
toml = "*"
