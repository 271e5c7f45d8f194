[package]
name = "video-player"
version = "0.1.0"
edition = "2021"
publish = false

[dependencies]
cpal = "=0.10.0"
failure = "=0.1.8"
ffmpeg = "=0.3.0"
gl = "=0.14.0"
lazy_static = "=1.5.1"
log = "=0.4.34"
serde = { version = "=1.0.229", features = ["derive"] }
tokio = { version = "=1.54.1", features = ["macros", "rt-multi-thread"] }
warp = { version = "=0.4.3", features = ["server"] }
