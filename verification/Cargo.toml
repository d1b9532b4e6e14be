[package]
name = "r_ps1"
version = "0.9.4"
edition = "2021"
publish = false

[dependencies]
md5 = "0.7"
regex = "1"
serde = { version = "1", features = ["derive"] }
serde_yaml = "0.9"
