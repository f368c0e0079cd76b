[package]
name = "raw_node"
version = "0.1.0"
edition = "2021"
publish = false

[dependencies]
prost = { version = "0.5", default-features = false }
slog = "2"
