[package]
name = "actix-forward-prefix"
version = "0.1.0"
edition = "2021"
publish = false

[dependencies]
actix-web = { version = "4", default-features = false }
futures-util = "0.3"
