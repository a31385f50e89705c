[package]
name = "reactor_core"
version = "0.1.0"
edition = "2021"
publish = false

[dependencies]
rand = "0.8"
rand_chacha = "0.3"
structopt = "0.3"
toml = "0.5"
anyhow = "1"
thiserror = "1"
tracing = "0.1"
