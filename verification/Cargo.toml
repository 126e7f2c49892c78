[package]
name = "rrrocket"
version = "0.1.0"
edition = "2021"
publish = false

[dependencies]
anyhow = "=1.0.104"
boxcars = "=0.13.0"
either = "=1.19.0"
glob = "=0.3.4"
memmap2 = "=0.9.12"
rfd = "0.15"
serde_json = "=1.0.154"
