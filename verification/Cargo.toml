[package]
name = "docker"
version = "0.1.0"
edition = "2021"
publish = false

[dependencies]
url = "0.2"
tar = { version = "0.4", default-features = false }
flate2 = "1"
unix_socket = "0.5"
hyper = "0.10"
openssl = "0.10"
