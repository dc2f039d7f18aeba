[package]
name = "record_screen"
version = "0.1.0"
edition = "2021"
publish = false

[dependencies]
webm-sys = "=2.2.1"
vpx-encode = { version = "=0.6.2", features = ["vp9"] }
scrap = "=0.5.0"
cpal = "=0.8.2"
quest = "=0.3.0"
