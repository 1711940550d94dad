[package]
name = "wanaplay_booker"
version = "0.1.0"
edition = "2021"
publish = false

[dependencies]
chrono = "0.4"
env_logger = "*"
failure = "0.1"
regex = "1"
reqwest = { version = "0.12", default-features = false, features = ["blocking"] }
rust-crypto = "0.2"
select = "0.6"
structopt = "0.3"
