[package]
name = "onagre"
version = "0.1.0"
edition = "2021"
publish = false

[dependencies]
shell-words = "=1.1.1"
pop-launcher = "=1.2.7"
serde_json = "1"
