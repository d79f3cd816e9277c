[package]
name = "evn_engine"
version = "0.1.0"
edition = "2021"
publish = false

[dependencies]
chrono = "=0.4.45"
serde_yaml = "=0.9.34"
log = { version = "=0.4.34", features = ["std"] }
ash = "=0.38.0"
winit = "=0.30.13"
ash-window = "=0.13.0"
raw-window-handle = "=0.6.2"
clap = "=4.6.7"
