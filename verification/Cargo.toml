[package]
name = "tp"
version = "0.1.0"
edition = "2021"
publish = false

[dependencies]
color-eyre = "*"
dialoguer = "*"
dirs = "*"
facet = "*"
facet-json = "*"
facet-toml = "*"
figue = "*"
futures = "*"
indicatif = "*"
owo-colors = "*"
reqwest = { version = "0.12", default-features = false, features = ["rustls-tls"] }
tokio = { version = "*", features = ["macros", "rt-multi-thread", "time"] }
