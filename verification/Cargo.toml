[package]
name = "input_method_v3"
version = "0.1.0"
edition = "2021"
publish = false

[dependencies]
log = "0.4"
wayland-client = "0.31"
wayland-protocols = { version = "0.32", features = ["client", "unstable"] }
