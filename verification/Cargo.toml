[package]
name = "twt"
version = "0.1.0"
edition = "2021"
publish = false

[dependencies]
clap = { version = "=4.6.7", features = ["derive"] }
git2 = { version = "=0.18.3", default-features = false }
regex-syntax = "=0.8.11"
skim = { version = "=0.10.4", default-features = false }

[dev-dependencies]
regex = "=1.13.1"
