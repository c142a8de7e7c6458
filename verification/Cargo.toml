[package]
name = "futures_enum"
version = "0.1.0"
edition = "2021"
publish = false

[dependencies]
syn = "=1.0.109"
find-crate = "=0.6.3"
quote = "1"
