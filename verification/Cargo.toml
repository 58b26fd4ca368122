[package]
name = "cahal"
version = "0.1.0"
edition = "2021"
publish = false

[dependencies]
clap = { version = "4", features = ["derive"] }
core-foundation = "*"
coreaudio-sys = "*"
log = "0.4"
oslog = "*"
toml = "*"
uuid = { version = "1", features = ["v3"] }
