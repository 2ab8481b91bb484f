[package]
name = "lux_session"
version = "0.1.0"
edition = "2021"
publish = false

[dependencies]
anchor-lang = "=0.29.0"
borsh = "=0.10.4"
light-hasher = "=1.1.1"
light-sdk = "=0.11.1"
light-utils = "=1.1.0"
