[package]
name = "gif_frames"
version = "0.1.0"
edition = "2021"
publish = false

[dependencies]
image = "0.24"
base64 = "0.13"
serde = "1"
serde_derive = "1"
