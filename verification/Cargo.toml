[package]
name = "screencopy"
version = "0.1.0"
edition = "2021"
publish = false

[dependencies]
nix = "0.26"
memmap2 = "0.9"
tracing = "0.1"
wayland-client = "0.31"
wayland-protocols-wlr = { version = "0.3", features = ["client"] }
