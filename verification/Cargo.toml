[package]
name = "tracker_core"
version = "0.1.0"
edition = "2021"
publish = false

[dependencies]
fixed = "1"
clap = { version = "4", features = ["derive"] }
sdl2 = "*"
