[package]
name = "topopages"
version = "0.1.0"
edition = "2021"
publish = false

[dependencies]
anyhow = "=1.0.104"
csv = "=1.4.0"
image = "=0.24.9"
imageproc = "=0.23.1"
rusttype = "=0.9.3"
serde = { version = "=1.0.229", features = ["derive"] }
