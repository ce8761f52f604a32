[package]
name = "panic_handler"
version = "0.1.0"
edition = "2021"
publish = false

[dependencies]
bevy = { version = "=0.15.3", default-features = false, features = ["bevy_window"] }
rfd = "0.14"
