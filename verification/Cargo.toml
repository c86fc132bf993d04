[package]
name = "media_session"
version = "0.1.0"
edition = "2021"
publish = false

[dependencies]
anyhow = "*"
mpris = "*"
objc2-media-player = "*"
