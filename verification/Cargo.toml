[package]
name = "docker_test"
version = "0.1.0"
edition = "2021"
publish = false

[dependencies]
anyhow = "1"
camino = "1"
cfg-if = "1"
