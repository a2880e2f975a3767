[package]
name = "file_transfer"
version = "0.1.0"
edition = "2021"
publish = false

[dependencies]
async_async_io = "*"
clap = { version = "4", features = ["derive"] }
tokio = { version = "1", features = ["fs", "io-util"] }
