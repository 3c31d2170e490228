[package]
name = "mcs4_emu"
version = "0.1.0"
edition = "2021"
publish = false

[dependencies]
smallvec = "1"
tracing = "0.1"
tracing-subscriber = "0.3"
clap = { version = "4", features = ["derive"] }
eframe = { version = "0.29", default-features = false, features = ["glow", "x11", "default_fonts"] }
