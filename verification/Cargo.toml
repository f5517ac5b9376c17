[package]
name = "medusa_gen"
version = "0.1.0"
edition = "2021"
publish = false

[dependencies]
anyhow = "1"
askama = "*"
clap = { version = "4", features = ["derive"] }
fs_extra = "1"
tempfile = "3"
