[package]
name = "amble"
version = "0.1.0"
edition = "2021"
publish = false

[dependencies]
toml_edit = "*"
ptree = "*"
clap = { version = "4", features = ["derive"] }
inquire = "*"
eyre = "0.6"
tracing = "0.1"
