[package]
name = "confet"
version = "0.1.0"
edition = "2021"
publish = false

[dependencies]
rand = "0.8"
clap = { version = "4", features = ["derive"] }
serde = { version = "1", features = ["derive"] }
toml = "0.8"
dirs = "5"
gtk4 = "*"
gtk4-layer-shell = "*"
cairo-rs = "*"
graphene-rs = "*"
objc2 = "0.5"
