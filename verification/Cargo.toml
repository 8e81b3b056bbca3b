[package]
name = "pokecypher"
version = "0.1.0"
edition = "2021"
publish = false

[dependencies]
rand = "0.8"
itertools = "0.13"
askama = "0.12"
clap = { version = "4", features = ["derive"] }
eyre = "0.6"
futures = "0.3"
rustemon = "3"
tokio = { version = "1", features = ["macros", "rt-multi-thread"] }
tokio-stream = "0.1"
