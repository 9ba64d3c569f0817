[package]
name = "doombox"
version = "0.1.0"
edition = "2021"
publish = false

[dependencies]
heapless = "=0.8.0"
x86_64 = { version = "=0.14.13", default-features = false, features = ["instructions"] }
pc-keyboard = "=0.7.0"
pic8259 = "=0.10.4"
spin = "=0.9.9"
lazy_static = "=1.5.1"
