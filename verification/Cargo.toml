[package]
name = "robo"
version = "0.1.0"
edition = "2021"
publish = false

[dependencies]
godot = { version = "=0.5.5", features = ["api-4-7"] }
tracing = "=0.1.44"
