[package]
name = "sfo_kiosk"
version = "0.1.0"
edition = "2021"
publish = false

[dependencies]
gtk4 = { version = "=0.9.7", features = ["v4_14"] }
log = "=0.4.35"
