[package]
name = "adb_wifi"
version = "0.1.0"
edition = "2021"
publish = false

[dependencies]
mdns-sd = "=0.13.11"
qr2term = "=0.3.3"
rand = "=0.8.8"
