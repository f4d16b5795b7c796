[package]
name = "wayland_color"
version = "0.1.0"
edition = "2021"
publish = false

[dependencies]
thiserror = "2"
tracing = "0.1"
wayland-backend = "0.3"
wayland-protocols = { version = "0.32", features = ["server", "staging", "unstable"] }
wayland-server = "0.31"
