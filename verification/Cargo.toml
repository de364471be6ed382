[package]
name = "tee_gateway"
version = "0.1.0"
edition = "2021"
publish = false

[dependencies]
anyhow = "=1.0.104"
bincode = { version = "=2.0.1", features = ["derive"] }
dashmap = "=6.2.1"
mbedtls = "=0.13.6"
sm3 = "*"
vsock = "=0.5.4"
