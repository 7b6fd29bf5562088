[package]
name = "moka"
version = "0.1.0"
edition = "2021"
publish = false

[dependencies]
docopt = "0.6"
rustc-serialize = "0.3"
toml = "0.1"
