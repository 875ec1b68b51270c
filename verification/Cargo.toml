[package]
name = "entropy"
version = "0.1.0"
edition = "2021"
publish = false

[dependencies]
egui = "*"
log = "*"
anyhow = "*"
rfd = "*"
raw-window-handle = "0.6"
