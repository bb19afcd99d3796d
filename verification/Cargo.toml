[package]
name = "image_optimizer"
version = "0.1.0"
edition = "2021"
publish = false

[dependencies]
clap = { version = "=4.6.7", features = ["derive"] }
glob = "=0.3.4"
image = { version = "=0.24.9", default-features = false, features = ["jpeg", "png", "webp"] }
serde_json = "=1.0.154"
webp = { version = "=0.2.6", default-features = false }
