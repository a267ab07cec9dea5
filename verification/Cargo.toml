[package]
name = "apc"
version = "0.1.0"
edition = "2021"
publish = false

[dependencies]
embedded-hal = "0.2"
cortex-m = "0.5"
