[package]
name = "synthphone"
version = "0.1.0"
edition = "2021"
publish = false

[dependencies]
heapless = "0.8"
log = "0.4"
libm = "0.2"
cortex-m = "0.7"
