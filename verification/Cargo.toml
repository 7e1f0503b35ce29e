[package]
name = "cue_timer"
version = "0.1.0"
edition = "2021"
publish = false

[dependencies]
serde_yaml = "0.9"
iced = { version = "0.13", default-features = false }
rodio = "0.19"
