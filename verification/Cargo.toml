[package]
name = "winit_agnostic"
version = "0.1.0"
edition = "2021"
publish = false

[dependencies]
cursor-icon = "1.1"
raw-window-handle = "0.6"
