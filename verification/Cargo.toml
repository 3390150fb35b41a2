[package]
name = "wm_dispatch"
version = "0.1.0"
edition = "2021"
publish = false

[dependencies]
rustwlc = "=0.7.0"
uuid = "=1.29.0"
