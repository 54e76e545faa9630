[package]
name = "simple_socket"
version = "0.1.0"
edition = "2021"
publish = false

[dependencies]
socket2 = "*"
serde = { version = "1", features = ["derive"] }
bincode = "1"
