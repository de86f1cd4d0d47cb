[package]
name = "hybridscan"
version = "0.1.0"
edition = "2021"
publish = false

[dependencies]
hex = "=0.4.3"
subxt = "=0.51.1"
sycamore = { version = "=0.9.3", features = ["suspense"] }
sycamore-router = "=0.9.3"
