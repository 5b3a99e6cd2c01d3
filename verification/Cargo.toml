[package]
name = "autoclicker"
version = "0.1.0"
edition = "2021"
publish = false

[dependencies]
device_query = "2.1"
enigo = "0.2"
