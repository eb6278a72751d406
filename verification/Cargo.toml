[package]
name = "cubic"
version = "0.1.0"
edition = "2021"
publish = false

[dependencies]
regex = "=1.13.1"
regex-syntax = "=0.8.11"
serde = { version = "=1.0.229", features = ["derive"] }
serde_json = "=1.0.154"
toml = { version = "=0.8.23", features = ["preserve_order"] }
clap = { version = "=4.6.7", features = ["derive"] }
tokio = { version = "=1.54.1", features = ["rt", "macros", "io-util", "time"] }
iced = { version = "=0.13.1", default-features = false, features = ["tiny-skia"] }
