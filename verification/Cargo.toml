[package]
name = "asr33emu"
version = "0.1.0"
edition = "2021"
publish = false

[dependencies]
clap = { version = "=4.6.7", features = ["derive"] }
serde = { version = "=1.0.229", features = ["derive"] }
serde-saphyr = "=2.0.0"
serialport = { version = "=4.10.1", default-features = false }
eframe = { version = "=0.37.0", default-features = false, features = ["default_fonts", "glow", "x11"] }
libc = "=0.2.191"
