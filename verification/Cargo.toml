[package]
name = "pyrev"
version = "0.1.0"
edition = "2021"
publish = false

[dependencies]
regex = "1"
clap = { version = "4", features = ["cargo"] }
colored = "2"
atty = "0.2"
