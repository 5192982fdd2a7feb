[package]
name = "nocheat"
version = "0.1.0"
edition = "2021"
publish = false

[dependencies]
anyhow = "*"
libc = "*"
once_cell = "*"
randomforest = "*"
serde = { version = "*", features = ["derive"] }
serde_json = "*"
