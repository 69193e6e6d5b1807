[package]
name = "vi_music"
version = "0.1.0"
edition = "2021"
publish = false

[dependencies]
cpal = "0.15"
dirs = "5"
mp3-duration = "0.1"
rodio = "0.19"
serde = { version = "1", features = ["derive"] }
serde_json = "1"
souvlaki = "0.7"
symphonia = "0.5"
walkdir = "2"
