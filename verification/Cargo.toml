[package]
name = "devbox"
version = "0.1.0"
edition = "2021"
publish = false

[dependencies]
clap = "2"
colored = "2"
dirs = "1"
failure = "0.1"
failure_derive = "0.1"
prettytable-rs = { version = "0.10", default-features = false }
rayon = "1"
serde = { version = "1", features = ["derive"] }
tempdir = "0.3"
toml = { version = "0.5", features = ["preserve_order"] }
