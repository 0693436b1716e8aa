[package]
name = "libobs_recorder"
version = "0.1.0"
edition = "2021"
publish = false

[dependencies]
serde = { version = "1", features = ["derive"] }
serde_json = "1"
log = "0.4"
wait-timeout = "0.2"
fs_extra = "1"
