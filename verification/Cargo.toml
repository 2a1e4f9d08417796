[package]
name = "altgovph"
version = "0.1.0"
edition = "2021"
publish = false

[dependencies]
actix-web = "=4.15.0"
actix-files = "=0.7.0"
tera = "=1.20.1"
