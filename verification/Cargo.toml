[package]
name = "twitch_cli"
version = "0.1.0"
edition = "2021"
publish = false

[dependencies]
unicode-segmentation = "*"
serde_json = "*"
clap = "*"
reqwest = { version = "*", default-features = false, features = ["blocking", "rustls-tls"] }
