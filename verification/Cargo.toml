[package]
name = "scythe"
version = "0.1.0"
edition = "2021"
publish = false

[dependencies]
softbuffer = "=0.3.4"
raw-window-handle = "=0.5.2"
tracing = "=0.1.44"
