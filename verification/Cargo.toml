[package]
name = "music_player"
version = "0.1.0"
edition = "2021"
publish = false

[dependencies]
anyhow = "*"
async-stream = "*"
async-trait = "*"
cpal = "*"
crossterm = "*"
directories = "*"
ffmpeg-next = "*"
futures = "*"
ratatui = "*"
ringbuf = "*"
serde = { version = "*", features = ["derive"] }
tokio = { version = "*", features = ["macros", "rt-multi-thread", "sync", "time", "fs"] }
tokio-stream = "*"
toml_edit = { version = "*", features = ["serde"] }
tracing = "*"
tracing-appender = "*"
tracing-subscriber = "*"
walkdir = "*"
