[package]
name = "ptyrec"
version = "0.1.0"
edition = "2021"
publish = false

[dependencies]
portable-pty = "*"
crossbeam-channel = "*"
rusqlite = { version = "*", features = ["bundled"] }
chrono = "*"
uuid = { version = "*", features = ["v4"] }
