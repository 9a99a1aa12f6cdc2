[package]
name = "rsssh"
version = "0.1.0"
edition = "2021"
publish = false

[dependencies]
cookie = "0.18"
docopt = "1.1"
hyper = "0.10"
libc = "0.2"
netrc = "0.4"
rustc-serialize = "0.3"
serde = { version = "1", features = ["derive"] }
toml = "0.8"
