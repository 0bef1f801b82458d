[package]
name = "loudness_scan"
version = "0.1.0"
edition = "2021"
publish = false

[dependencies]
globset = "0.4"
symphonia = { version = "0.5", features = ["mp3"] }
ebur128 = "0.1"
walkdir = "2"
clap = { version = "4", features = ["derive"] }
