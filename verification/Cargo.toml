[package]
name = "rustpack"
version = "0.1.0"
edition = "2021"
publish = false

[dependencies]
alpm = "*"
anyhow = "*"
colored = "*"
libc = "*"
regex = "*"
reqwest = { version = "*", features = ["blocking", "json"] }
serde = "*"
