[package]
name = "janus_plugin"
version = "0.1.0"
edition = "2021"
publish = false

[dependencies]
chrono = "=0.4.45"
colored = "=1.8.0"
glib-sys = "=0.7.0"
libc = "=0.2.191"
serde = "=1.0.229"
