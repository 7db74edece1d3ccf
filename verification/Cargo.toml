[package]
name = "real_estate"
version = "0.1.0"
edition = "2021"
publish = false

[dependencies]
bounded-collections = "*"
frame-support = "*"
frame-system = "*"
parity-scale-codec = { version = "3", features = ["derive", "max-encoded-len"] }
scale-info = { version = "2", features = ["derive"] }
