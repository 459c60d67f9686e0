[package]
name = "ia_sandbox"
version = "0.1.0"
edition = "2021"
publish = false

[dependencies]
bincode = "1"
clap = "2"
libc = "0.2"
serde = { version = "1", features = ["derive"] }
serde_json = "1"
