[package]
name = "ds3231"
version = "0.1.0"
edition = "2021"
publish = false

[dependencies]
chrono = "0.4"
embedded-hal = "1"
