[package]
name = "status_blocks"
version = "0.1.0"
edition = "2021"
publish = false

[dependencies]
uuid = { version = "0.8", features = ["v4"] }
serde = { version = "1", features = ["derive"] }
x11 = { version = "2", features = ["xlib", "xss"] }
