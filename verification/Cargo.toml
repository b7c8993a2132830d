[package]
name = "faster_bridge"
version = "0.1.0"
edition = "2021"
publish = false

[dependencies]
bincode = "=1.3.3"
serde = "=1.0.229"
libc = "=0.2.191"
libfaster-sys = "=0.2.0"
