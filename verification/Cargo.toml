[package]
name = "spotify"
version = "0.1.0"
edition = "2021"
publish = false

[dependencies]
json = "0.12"
time = "0.1"
reqwest = { version = "0.11", default-features = false, features = ["blocking", "rustls-tls"] }
winapi = "0.2"
kernel32-sys = "0.2"
