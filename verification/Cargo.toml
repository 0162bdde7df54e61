[package]
name = "clipboard2json"
version = "0.1.0"
edition = "2021"
publish = false

[dependencies]
serde = { version = "1", features = ["derive"] }
serde_json = "1"
x11 = { version = "2", features = ["xlib"] }
