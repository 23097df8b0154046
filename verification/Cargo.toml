[package]
name = "aw_bridge"
version = "0.1.0"
edition = "2021"
publish = false

[dependencies]
jni = "0.19"
rocket = "0.5"
serde = "1"
serde_json = "1"
