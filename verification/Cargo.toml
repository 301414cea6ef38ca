[package]
name = "keylock"
version = "0.1.0"
edition = "2021"
publish = false

[dependencies]
crossbeam-channel = "0.5"
evdev = "0.12"
libc = "0.2"
image = { version = "0.24", default-features = false, features = ["png"] }
