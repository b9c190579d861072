[package]
name = "samplemap"
version = "0.1.0"
edition = "2021"
publish = false

[dependencies]
anyhow = "1"
hound = "3.5"
rodio = "0.17"
symphonia = { version = "0.5", features = ["wav", "pcm"] }
walkdir = "2"
