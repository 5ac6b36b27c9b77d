[package]
name = "anne"
version = "0.1.0"
edition = "2021"
publish = false

[dependencies]
zip = { version = "*", default-features = false, features = ["deflate"] }
quick-xml = "*"
clap = "*"
env_logger = "*"
log = "*"
