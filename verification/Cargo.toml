[package]
name = "maghand"
version = "0.1.0"
edition = "2021"
publish = false

[dependencies]
heapless = "=0.9.3"
hash32 = "=0.3.1"

[dev-dependencies]
usbd-hid = "=0.10.2"
