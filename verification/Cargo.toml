[package]
name = "tabstyle"
version = "0.1.0"
edition = "2021"
publish = false

[dependencies]
iced_core = "=0.9.0"
iced_native = "=0.10.3"
iced_style = "=0.8.0"
