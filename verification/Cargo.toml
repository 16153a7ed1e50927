[package]
name = "rs100"
version = "1.4.0"
edition = "2021"
publish = false

[dependencies]
clap = { version = "4", features = ["derive"] }
