[package]
name = "thghosting-data-centers"
version = "0.1.0"
edition = "2021"
publish = false

[dependencies]
scraper = "*"
http-api-client-endpoint = "*"
isahc = "*"
thiserror = "*"
